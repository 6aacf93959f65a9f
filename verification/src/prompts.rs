//! Prompt files: an optional front matter between two lines of `---`, then
//! the body.

use crate::sorting::{is_sorted_by, keys_of, sort_by_keys, Key, SortKey};
use crate::text::{
    chars_of, range_eq, skip_trailing, strip_bounds, strip_end, text_of, trimmed, CharClass,
};
use vstd::prelude::*;
use vstd::string::StringExecFns;

verus! {

/// What the front matter of a prompt file says.
#[derive(Clone, Debug)]
pub struct PromptFrontMatter {
    pub description: Option<String>,
    pub argument_hint: Option<String>,
}

/// The content of a [`PromptFrontMatter`].
pub struct FrontMatter {
    pub description: Option<Seq<char>>,
    pub argument_hint: Option<Seq<char>>,
}

/// The text of an optional string.
pub open spec fn text_view(value: Option<String>) -> Option<Seq<char>> {
    match value {
        Some(text) => Some(text@),
        None => None,
    }
}

impl View for PromptFrontMatter {
    type V = FrontMatter;

    open spec fn view(&self) -> FrontMatter {
        FrontMatter {
            description: text_view(self.description),
            argument_hint: text_view(self.argument_hint),
        }
    }
}

/// Why a prompt cannot be read.
#[derive(Clone, Copy, Debug, PartialEq, Eq)]
pub enum PromptError {
    /// The name is empty.
    EmptyName,
    /// The name holds a path separator.
    InvalidName,
}

impl PromptError {
    /// The error as it is shown.
    pub fn message(&self) -> (shown: &'static str)
        ensures
            shown@ == match self {
                PromptError::EmptyName => "prompt name is empty"@,
                PromptError::InvalidName => "invalid prompt name"@,
            },
    {
        match self {
            PromptError::EmptyName => "prompt name is empty",
            PromptError::InvalidName => "invalid prompt name",
        }
    }
}

/// The end of the line that begins at `from`: the position after its line
/// feed, or the end of the text where the line has none.
pub open spec fn line_break(text: Seq<char>, from: int) -> int
    decreases text.len() - from,
{
    if from < 0 || from >= text.len() {
        text.len() as int
    } else if text[from] == '\n' {
        from + 1
    } else {
        line_break(text, from + 1)
    }
}

/// The line that begins at `from`, without the line break at its end.
pub open spec fn line_text(text: Seq<char>, from: int) -> Seq<char> {
    strip_end(text.subrange(from, line_break(text, from)), CharClass::Either('\r', '\n'))
}

/// The position of the first `c` in `text` at or after `from`.
pub open spec fn first_index(text: Seq<char>, c: char, from: int) -> Option<int>
    decreases text.len() - from,
{
    if from < 0 || from >= text.len() {
        None
    } else if text[from] == c {
        Some(from)
    } else {
        first_index(text, c, from + 1)
    }
}

/// Whether a value stands between a pair of double or of single quotes.
pub open spec fn is_quoted(text: Seq<char>) -> bool {
    text.len() >= 2 && ((text.first() == '"' && text.last() == '"') || (text.first() == '\''
        && text.last() == '\''))
}

/// The value of a front-matter entry: the text without the white space
/// around it and without the quotes around that; nothing where only white
/// space is given. A quote that stands alone is a value like any other.
pub open spec fn prompt_value(raw: Seq<char>) -> Option<Seq<char>> {
    let inner = trimmed(raw);
    if inner.len() == 0 {
        None
    } else if is_quoted(inner) {
        Some(inner.subrange(1, inner.len() - 1))
    } else {
        Some(inner)
    }
}

/// The front matter after one more of its lines was read. A line counts
/// where it has a colon: what stands before the first colon is the key,
/// what stands after it the value. A later entry replaces an earlier one.
pub open spec fn with_entry(meta: FrontMatter, line: Seq<char>) -> FrontMatter {
    match first_index(line, ':', 0) {
        Some(colon) => {
            let key = trimmed(line.take(colon));
            let value = prompt_value(line.skip(colon + 1));
            if key == "description"@ {
                FrontMatter { description: value, ..meta }
            } else if key == "argument-hint"@ || key == "argument_hint"@ {
                FrontMatter { argument_hint: value, ..meta }
            } else {
                meta
            }
        },
        None => meta,
    }
}

/// Where the body begins: after the first line of `---` at or after `from`,
/// if there is one.
pub open spec fn body_start(text: Seq<char>, from: int) -> Option<int>
    decreases text.len() - from,
    via body_start_decreases
{
    if from < 0 || from >= text.len() {
        None
    } else if line_text(text, from) == "---"@ {
        Some(line_break(text, from))
    } else {
        body_start(text, line_break(text, from))
    }
}

/// The front matter that the lines from `from` up to the next line of `---`
/// add to `meta`.
pub open spec fn entries(text: Seq<char>, from: int, meta: FrontMatter) -> FrontMatter
    decreases text.len() - from,
    via entries_decreases
{
    if from < 0 || from >= text.len() {
        meta
    } else if line_text(text, from) == "---"@ {
        meta
    } else {
        entries(text, line_break(text, from), with_entry(meta, line_text(text, from)))
    }
}

#[via_fn]
proof fn body_start_decreases(text: Seq<char>, from: int) {
    if 0 <= from < text.len() {
        lemma_line_break_bounds(text, from);
    }
}

#[via_fn]
proof fn entries_decreases(text: Seq<char>, from: int, meta: FrontMatter) {
    if 0 <= from < text.len() {
        lemma_line_break_bounds(text, from);
    }
}

/// The home directory that counts: the first of `home` and `user_profile`
/// that is set and not blank.
pub open spec fn home_of(home: Option<&str>, user_profile: Option<&str>) -> Option<Seq<char>> {
    if home matches Some(value) && !crate::text::is_blank(value@) {
        Some(home->0@)
    } else if user_profile matches Some(value) && !crate::text::is_blank(value@) {
        Some(user_profile->0@)
    } else {
        None
    }
}

/// The front matter that says nothing.
pub open spec fn no_front_matter() -> FrontMatter {
    FrontMatter { description: None, argument_hint: None }
}

/// What a prompt file holds. A file whose first line is `---` and that has
/// a second such line holds the front matter between the two and the body
/// after the second; every other file is body as a whole.
pub open spec fn prompt_file(contents: Seq<char>) -> (FrontMatter, Seq<char>) {
    if line_text(contents, 0) != "---"@ {
        (no_front_matter(), contents)
    } else {
        let opening = line_break(contents, 0);
        match body_start(contents, opening) {
            Some(body) => (entries(contents, opening, no_front_matter()), contents.skip(body)),
            None => (no_front_matter(), contents),
        }
    }
}

/// A line ends after it begins, within the text, and holds no line feed
/// but at its end.
proof fn lemma_line_break_bounds(text: Seq<char>, from: int)
    requires
        0 <= from <= text.len(),
    ensures
        from <= line_break(text, from) <= text.len(),
        from < text.len() ==> from < line_break(text, from),
        forall|i: int| from <= i < line_break(text, from) - 1 ==> text[i] != '\n',
    decreases text.len() - from,
{
    if from < text.len() && text[from] != '\n' {
        lemma_line_break_bounds(text, from + 1);
    }
}

/// The end of the line of `chars` that begins at `from`.
fn line_end(chars: &[char], from: usize) -> (end: usize)
    requires
        from <= chars.len(),
    ensures
        end == line_break(chars@, from as int),
        from <= end <= chars.len(),
        from < chars.len() ==> from < end,
{
    let mut at = from;
    while at < chars.len() && chars[at] != '\n'
        invariant
            from <= at <= chars.len(),
            line_break(chars@, from as int) == line_break(chars@, at as int),
        decreases chars.len() - at,
    {
        at += 1;
    }
    proof {
        lemma_line_break_bounds(chars@, from as int);
    }
    if at < chars.len() {
        at + 1
    } else {
        at
    }
}

/// The position of the first `c` in `chars[from..to]`.
fn find_char(chars: &[char], from: usize, to: usize, c: char) -> (found: Option<usize>)
    requires
        from <= to <= chars.len(),
    ensures
        match found {
            Some(at) => from <= at < to && first_index(
                chars@.subrange(from as int, to as int),
                c,
                0,
            ) == Some(at - from),
            None => first_index(chars@.subrange(from as int, to as int), c, 0) is None,
        },
{
    let ghost part = chars@.subrange(from as int, to as int);
    let mut at = from;
    while at < to
        invariant
            from <= at <= to,
            to <= chars.len(),
            part == chars@.subrange(from as int, to as int),
            first_index(part, c, 0) == first_index(part, c, at - from),
        decreases to - at,
    {
        assert(part[at - from] == chars@[at as int]);
        if chars[at] == c {
            return Some(at);
        }
        at += 1;
    }
    None
}

/// The value of `chars[from..to]` as a front-matter entry.
fn value_of(chars: &[char], from: usize, to: usize) -> (value: Option<String>)
    requires
        from <= to <= chars.len(),
    ensures
        text_view(value) == prompt_value(chars@.subrange(from as int, to as int)),
{
    let (a, b) = strip_bounds(chars, from, to, CharClass::Space);
    if a == b {
        return None;
    }
    let ghost inner = chars@.subrange(a as int, b as int);
    proof {
        assert(inner.first() == chars@[a as int]);
        assert(inner.last() == chars@[b - 1]);
    }
    let first = chars[a];
    let last = chars[b - 1];
    if b - a >= 2 && ((first == '"' && last == '"') || (first == '\'' && last == '\'')) {
        proof {
            assert(inner.subrange(1, inner.len() - 1) == chars@.subrange(a + 1, b - 1));
        }
        Some(text_of(chars, a + 1, b - 1))
    } else {
        Some(text_of(chars, a, b))
    }
}

/// The value of a front-matter entry: the text without the white space
/// around it, and without the pair of quotes around that, if there is one;
/// nothing where the text is white space alone.
pub fn parse_prompt_value(raw: &str) -> (value: Option<String>)
    ensures
        text_view(value) == prompt_value(raw@),
{
    let chars = chars_of(raw);
    proof {
        assert(chars@.subrange(0, chars.len() as int) == chars@);
    }
    value_of(chars.as_slice(), 0, chars.len())
}

/// Whether `chars[from..to]` is a line of `---`.
fn is_fence(chars: &[char], from: usize, to: usize) -> (fence: bool)
    requires
        from <= to <= chars.len(),
    ensures
        fence == (chars@.subrange(from as int, to as int) == "---"@),
{
    let dashes = chars_of("---");
    range_eq(chars, from, to, dashes.as_slice())
}

/// Reads one line of front matter into `meta`.
fn read_entry(meta: &mut PromptFrontMatter, chars: &[char], from: usize, to: usize)
    requires
        from <= to <= chars.len(),
    ensures
        final(meta)@ == with_entry(old(meta)@, chars@.subrange(from as int, to as int)),
{
    let ghost line = chars@.subrange(from as int, to as int);
    let colon = match find_char(chars, from, to, ':') {
        Some(colon) => colon,
        None => {
            return ;
        },
    };
    let (a, b) = strip_bounds(chars, from, colon, CharClass::Space);
    proof {
        assert(line.take(colon - from) == chars@.subrange(from as int, colon as int));
        assert(line.skip(colon - from + 1) == chars@.subrange(colon + 1, to as int));
    }
    let value = value_of(chars, colon + 1, to);
    let description = chars_of("description");
    let hint_dashed = chars_of("argument-hint");
    let hint_underscored = chars_of("argument_hint");
    if range_eq(chars, a, b, description.as_slice()) {
        meta.description = value;
    } else if range_eq(chars, a, b, hint_dashed.as_slice()) || range_eq(
        chars,
        a,
        b,
        hint_underscored.as_slice(),
    ) {
        meta.argument_hint = value;
    }
}

/// Splits a prompt file into its front matter and its body.
///
/// The front matter stands between a first line of `---` and the next such
/// line; of its lines, `description` and `argument-hint` (or
/// `argument_hint`) are read. A file without a first line of `---`, or
/// without a second one, has no front matter and is body as a whole.
pub fn parse_prompt_file(contents: &str) -> (parsed: (PromptFrontMatter, String))
    ensures
        parsed.0@ == prompt_file(contents@).0,
        parsed.1@ == prompt_file(contents@).1,
{
    let chars = chars_of(contents);
    let text = chars.as_slice();
    let nothing = PromptFrontMatter { description: None, argument_hint: None };
    let opening = line_end(text, 0);
    let opening_text = skip_trailing(text, 0, opening, CharClass::Either('\r', '\n'));
    if !is_fence(text, 0, opening_text) {
        return (nothing, contents.to_owned());
    }
    let mut meta = PromptFrontMatter { description: None, argument_hint: None };
    let mut at = opening;
    while at < text.len()
        invariant
            text@ == contents@,
            line_text(text@, 0) == "---"@,
            opening == line_break(text@, 0),
            opening <= at <= text.len(),
            body_start(text@, opening as int) == body_start(text@, at as int),
            entries(text@, opening as int, no_front_matter()) == entries(
                text@,
                at as int,
                meta@,
            ),
        decreases text.len() - at,
    {
        let end = line_end(text, at);
        let line_to = skip_trailing(text, at, end, CharClass::Either('\r', '\n'));
        if is_fence(text, at, line_to) {
            proof {
                assert(text@.skip(end as int) == text@.subrange(end as int, text.len() as int));
            }
            let body = text_of(text, end, text.len());
            return (meta, body);
        }
        read_entry(&mut meta, text, at, line_to);
        at = end;
    }
    (nothing, contents.to_owned())
}

/// The name of a prompt, made usable: without white space around it. An
/// empty name is refused, and so is one that holds `/` or `\`.
pub fn validate_prompt_name(name: &str) -> (valid: Result<String, PromptError>)
    ensures
        match valid {
            Ok(clean) => {
                &&& clean@ == trimmed(name@)
                &&& clean@.len() > 0
                &&& !clean@.contains('/')
                &&& !clean@.contains('\\')
            },
            Err(error) => {
                &&& error == PromptError::EmptyName <==> trimmed(name@).len() == 0
                &&& error == PromptError::InvalidName <==> trimmed(name@).len() > 0 && (trimmed(
                    name@,
                ).contains('/') || trimmed(name@).contains('\\'))
                &&& error == PromptError::EmptyName || error == PromptError::InvalidName
            },
        },
{
    let chars = chars_of(name);
    proof {
        assert(chars@.subrange(0, chars.len() as int) == chars@);
    }
    let (a, b) = strip_bounds(chars.as_slice(), 0, chars.len(), CharClass::Space);
    if a == b {
        return Err(PromptError::EmptyName);
    }
    let ghost inner = chars@.subrange(a as int, b as int);
    let mut at = a;
    while at < b
        invariant
            a <= at <= b,
            a < b,
            b <= chars.len(),
            inner == chars@.subrange(a as int, b as int),
            inner == trimmed(name@),
            forall|k: int| 0 <= k < at - a ==> inner[k] != '/' && inner[k] != '\\',
        decreases b - at,
    {
        assert(inner[at - a] == chars@[at as int]);
        if chars[at] == '/' || chars[at] == '\\' {
            assert(inner.contains(inner[at - a]));
            return Err(PromptError::InvalidName);
        }
        at += 1;
    }
    Ok(text_of(chars.as_slice(), a, b))
}

/// Whether an entry of the prompt directory is a prompt: a file with the
/// extension `md` and a name that is not blank.
pub fn is_prompt_entry(extension: Option<&str>, stem: Option<&str>) -> (listed: bool)
    ensures
        listed == ((extension matches Some(ext) && ext@ == "md"@) && (stem matches Some(name)
            && trimmed(name@).len() > 0)),
{
    let fits = match extension {
        Some(ext) => crate::text::text_eq(ext, "md"),
        None => false,
    };
    if !fits {
        return false;
    }
    match stem {
        Some(name) => !crate::text::blank(name),
        None => false,
    }
}

/// A prompt as it is listed.
#[derive(Debug)]
pub struct PromptListItem {
    pub name: String,
    pub path: String,
    pub description: Option<String>,
    pub argument_hint: Option<String>,
}

/// A prompt as it is read.
#[derive(Debug)]
pub struct PromptFile {
    pub name: String,
    pub body: String,
    pub description: Option<String>,
    pub argument_hint: Option<String>,
}

/// The entry of the prompt list for the file at `path` with the name `name`
/// and the contents `contents`.
pub fn prompt_list_item(name: String, path: String, contents: &str) -> (item: PromptListItem)
    ensures
        item.name == name,
        item.path == path,
        text_view(item.description) == prompt_file(contents@).0.description,
        text_view(item.argument_hint) == prompt_file(contents@).0.argument_hint,
{
    let (meta, _body) = parse_prompt_file(contents);
    PromptListItem {
        name,
        path,
        description: meta.description,
        argument_hint: meta.argument_hint,
    }
}

/// The prompt with the name `name` and the contents `contents`.
pub fn prompt_of(name: String, contents: &str) -> (prompt: PromptFile)
    ensures
        prompt.name == name,
        prompt.body@ == prompt_file(contents@).1,
        text_view(prompt.description) == prompt_file(contents@).0.description,
        text_view(prompt.argument_hint) == prompt_file(contents@).0.argument_hint,
{
    let (meta, body) = parse_prompt_file(contents);
    PromptFile { name, body, description: meta.description, argument_hint: meta.argument_hint }
}

/// The name of the file that holds the prompt `name`.
pub fn prompt_file_name(name: &str) -> (file: String)
    ensures
        file@ == name@ + ".md"@,
{
    let mut file = name.to_owned();
    file.append(".md");
    file
}

/// The keys that prompts are sorted by: their names.
pub open spec fn name_keys(items: Seq<PromptListItem>) -> Seq<Key> {
    items.map_values(|item: PromptListItem| Key { rank: 0, text: item.name@ })
}

/// The prompts sorted by name.
pub fn sort_prompts(items: Vec<PromptListItem>) -> (sorted: Vec<PromptListItem>)
    ensures
        is_sorted_by(items@, name_keys(items@), sorted@),
        sorted@.len() == items@.len(),
{
    let mut keys: Vec<SortKey> = Vec::new();
    let mut i: usize = 0;
    while i < items.len()
        invariant
            i <= items.len(),
            keys@.len() == i,
            forall|k: int|
                0 <= k < i ==> (#[trigger] keys@[k])@ == (Key { rank: 0, text: items@[k].name@ }),
        decreases items.len() - i,
    {
        keys.push(SortKey { rank: 0, text: chars_of(items[i].name.as_str()) });
        i += 1;
    }
    proof {
        assert(keys_of(keys@) =~= name_keys(items@));
    }
    sort_by_keys(items, &keys)
}

/// The directory of some user's prompts, as the components of a path: the
/// home directory, then `.codex`, then `prompts`. The home directory is
/// taken from `home`, and from `user_profile` where `home` is unset or
/// blank; without either there is no such directory.
pub fn prompts_dir(home: Option<&str>, user_profile: Option<&str>) -> (components: Option<
    Vec<String>,
>)
    ensures
        match components {
            Some(parts) => {
                &&& parts@.len() == 3
                &&& home_of(home, user_profile) == Some(parts@[0]@)
                &&& parts@[1]@ == ".codex"@
                &&& parts@[2]@ == "prompts"@
            },
            None => home_of(home, user_profile) is None,
        },
{
    let base: &str = match home {
        Some(value) => if !crate::text::blank(value) {
            value
        } else {
            match user_profile {
                Some(other) => if !crate::text::blank(other) {
                    other
                } else {
                    return None;
                },
                None => {
                    return None;
                },
            }
        },
        None => match user_profile {
            Some(other) => if !crate::text::blank(other) {
                other
            } else {
                return None;
            },
            None => {
                return None;
            },
        },
    };
    let mut parts: Vec<String> = Vec::new();
    parts.push(base.to_owned());
    parts.push(".codex".to_owned());
    parts.push("prompts".to_owned());
    Some(parts)
}

} // verus!
