//! Reading the compiler's version out of what `protoc --version` prints:
//! the word `libprotoc`, white space, and the version.

use vstd::prelude::*;
use vstd::string::*;

verus! {

/// Why the compiler's version could not be read.
#[derive(Clone, Copy, Debug, PartialEq, Eq, Structural)]
pub enum VersionError {
    /// The compiler could not be run, or reported a failure.
    QueryFailed,
    /// What the compiler printed is no text.
    NotText,
    /// The output does not begin with the word `libprotoc`: this is some
    /// other program.
    UnexpectedTool,
    /// Nothing follows the word `libprotoc`.
    MissingVersion,
}

/// White space, as Unicode defines it.
pub open spec fn is_space(c: char) -> bool {
    let n = c as u32;
    ||| 0x09 <= n <= 0x0D
    ||| n == 0x20
    ||| n == 0x85
    ||| n == 0xA0
    ||| n == 0x1680
    ||| 0x2000 <= n <= 0x200A
    ||| n == 0x2028
    ||| n == 0x2029
    ||| n == 0x202F
    ||| n == 0x205F
    ||| n == 0x3000
}

/// The first position at or after `from` that holds no white space, or the
/// length of `s` if there is none.
pub open spec fn word_start(s: Seq<char>, from: int) -> int
    decreases s.len() - from,
{
    if from < 0 || from >= s.len() {
        s.len() as int
    } else if !is_space(s[from]) {
        from
    } else {
        word_start(s, from + 1)
    }
}

/// The first position at or after `from` that holds white space, or the
/// length of `s` if there is none.
pub open spec fn word_end(s: Seq<char>, from: int) -> int
    decreases s.len() - from,
{
    if from < 0 || from >= s.len() {
        s.len() as int
    } else if is_space(s[from]) {
        from
    } else {
        word_end(s, from + 1)
    }
}

/// The version in the compiler's output: the second word, provided that the
/// first is `libprotoc`.
pub open spec fn parsed_version(s: Seq<char>) -> Result<Seq<char>, VersionError> {
    let tool_start = word_start(s, 0);
    let tool_end = word_end(s, tool_start);
    let start = word_start(s, tool_end);
    let end = word_end(s, start);
    if tool_start >= s.len() || s.subrange(tool_start, tool_end) != "libprotoc"@ {
        Err(VersionError::UnexpectedTool)
    } else if start >= s.len() {
        Err(VersionError::MissingVersion)
    } else {
        Ok(s.subrange(start, end))
    }
}

/// What a version query yields: the parsed version if the compiler ran,
/// succeeded and printed text.
pub open spec fn queried_version(succeeded: bool, output: Option<Seq<char>>) -> Result<
    Seq<char>,
    VersionError,
> {
    if !succeeded {
        Err(VersionError::QueryFailed)
    } else {
        match output {
            None => Err(VersionError::NotText),
            Some(s) => parsed_version(s),
        }
    }
}

/// Says whether `c` is white space.
pub fn is_whitespace(c: char) -> (space: bool)
    ensures
        space == is_space(c),
{
    let n: u32 = c as u32;
    (0x09 <= n && n <= 0x0D) || n == 0x20 || n == 0x85 || n == 0xA0 || n == 0x1680 || (0x2000 <= n
        && n <= 0x200A) || n == 0x2028 || n == 0x2029 || n == 0x202F || n == 0x205F || n == 0x3000
}

fn find_word_start(s: &str, from: usize, len: usize) -> (at: usize)
    requires
        len == s@.len(),
        from <= len,
    ensures
        at == word_start(s@, from as int),
        from <= at <= len,
{
    let mut i: usize = from;
    while i < len
        invariant
            len == s@.len(),
            from <= i <= len,
            word_start(s@, from as int) == word_start(s@, i as int),
        decreases len - i,
    {
        if !is_whitespace(s.get_char(i)) {
            return i;
        }
        i += 1;
    }
    i
}

fn find_word_end(s: &str, from: usize, len: usize) -> (at: usize)
    requires
        len == s@.len(),
        from <= len,
    ensures
        at == word_end(s@, from as int),
        from <= at <= len,
{
    let mut i: usize = from;
    while i < len
        invariant
            len == s@.len(),
            from <= i <= len,
            word_end(s@, from as int) == word_end(s@, i as int),
        decreases len - i,
    {
        if is_whitespace(s.get_char(i)) {
            return i;
        }
        i += 1;
    }
    i
}

/// Reads the version out of the compiler's output.
pub fn parse_protoc_version(output: &str) -> (version: Result<String, VersionError>)
    ensures
        match version {
            Ok(v) => parsed_version(output@) == Ok::<Seq<char>, VersionError>(v@),
            Err(e) => parsed_version(output@) == Err::<Seq<char>, VersionError>(e),
        },
{
    let len = output.unicode_len();
    let tool_start = find_word_start(output, 0, len);
    let tool_end = find_word_end(output, tool_start, len);
    let start = find_word_start(output, tool_end, len);
    let end = find_word_end(output, start, len);
    if tool_start >= len {
        return Err(VersionError::UnexpectedTool);
    }
    let tool = String::from_str(output.substring_char(tool_start, tool_end));
    let expected = String::from_str("libprotoc");
    if !tool.eq(&expected) {
        Err(VersionError::UnexpectedTool)
    } else if start >= len {
        Err(VersionError::MissingVersion)
    } else {
        Ok(String::from_str(output.substring_char(start, end)))
    }
}

/// Reads the version out of a finished version query: whether the compiler
/// succeeded, and what it printed, if that was text.
pub fn version_from_query(succeeded: bool, output: Option<&str>) -> (version: Result<
    String,
    VersionError,
>)
    ensures
        match version {
            Ok(v) => queried_version(
                succeeded,
                match output {
                    Some(s) => Some(s@),
                    None => None,
                },
            ) == Ok::<Seq<char>, VersionError>(v@),
            Err(e) => queried_version(
                succeeded,
                match output {
                    Some(s) => Some(s@),
                    None => None,
                },
            ) == Err::<Seq<char>, VersionError>(e),
        },
{
    if !succeeded {
        Err(VersionError::QueryFailed)
    } else {
        match output {
            None => Err(VersionError::NotText),
            Some(s) => parse_protoc_version(s),
        }
    }
}

/// A version is only ever read from output that begins with the word
/// `libprotoc`, and it is a word itself: not empty and free of white space.
pub proof fn law_version_is_a_word(s: Seq<char>)
    requires
        parsed_version(s).is_ok(),
    ensures
        parsed_version(s).unwrap().len() > 0,
        forall|i: int|
            0 <= i < parsed_version(s).unwrap().len() ==> !is_space(
                #[trigger] parsed_version(s).unwrap()[i],
            ),
{
    let start = word_start(s, word_end(s, word_start(s, 0)));
    lemma_word_start_bounds(s, 0);
    lemma_word_end_bounds(s, word_start(s, 0));
    lemma_word_start_bounds(s, word_end(s, word_start(s, 0)));
    lemma_word_end_bounds(s, start);
    lemma_word_has_no_space(s, start);
}

/// `word_start` stays between `from` and the end.
pub proof fn lemma_word_start_bounds(s: Seq<char>, from: int)
    requires
        0 <= from <= s.len(),
    ensures
        from <= word_start(s, from) <= s.len(),
        word_start(s, from) < s.len() ==> !is_space(s[word_start(s, from)]),
    decreases s.len() - from,
{
    if from < s.len() && is_space(s[from]) {
        lemma_word_start_bounds(s, from + 1);
    }
}

/// `word_end` stays between `from` and the end.
pub proof fn lemma_word_end_bounds(s: Seq<char>, from: int)
    requires
        0 <= from <= s.len(),
    ensures
        from <= word_end(s, from) <= s.len(),
    decreases s.len() - from,
{
    if from < s.len() && !is_space(s[from]) {
        lemma_word_end_bounds(s, from + 1);
    }
}

/// Between `from` and the word's end there is no white space, and a word
/// that starts on a character other than white space is not empty.
pub proof fn lemma_word_has_no_space(s: Seq<char>, from: int)
    requires
        0 <= from <= s.len(),
    ensures
        forall|i: int| from <= i < word_end(s, from) ==> !is_space(#[trigger] s[i]),
        from < s.len() && !is_space(s[from]) ==> from < word_end(s, from),
    decreases s.len() - from,
{
    if from < s.len() && !is_space(s[from]) {
        lemma_word_has_no_space(s, from + 1);
        lemma_word_end_bounds(s, from + 1);
    }
}

} // verus!
