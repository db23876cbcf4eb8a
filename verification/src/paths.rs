use crate::error::Error;
use vstd::prelude::*;
use vstd::string::*;

verus! {

/// The suffix of a program binary's path.
pub open spec fn bin_suffix() -> Seq<char> {
    seq!['.', 'b', 'i', 'n']
}

/// The suffix of an instruction-text file's path.
pub open spec fn text_suffix() -> Seq<char> {
    seq!['.', 't', 'e', 'x', 't']
}

/// The suffix of a symbol table's path.
pub open spec fn elf_suffix() -> Seq<char> {
    seq!['.', 'e', 'l', 'f']
}

/// Whether a path ends in `.bin`.
pub open spec fn has_bin_suffix(path: Seq<char>) -> bool {
    path.len() >= 4 && path.subrange(path.len() - 4, path.len() as int) == bin_suffix()
}

/// The stem of a program's path: the path without one trailing `.bin`.
pub open spec fn path_stem(path: Seq<char>) -> Seq<char> {
    if has_bin_suffix(path) {
        path.subrange(0, path.len() - 4)
    } else {
        path
    }
}

/// The two files of a program: its binary and its instruction text.
#[derive(Clone, Debug, PartialEq, Eq)]
pub struct ProgramPaths {
    pub bin: String,
    pub text: String,
}

/// The files of the program whose path, with or without `.bin`, is `path`.
pub open spec fn paths_of(path: Seq<char>, paths: ProgramPaths) -> bool {
    &&& paths.bin@ == path_stem(path) + bin_suffix()
    &&& paths.text@ == path_stem(path) + text_suffix()
}

/// What a path's extension is replaced by: the path that
/// `std::path::Path::with_extension` gives for it. Within one build it
/// depends on the path and the extension alone. It follows the path syntax of
/// the platform that the library is built for, so for a few paths (those with
/// a backslash or a drive prefix) a build for Windows and one for Unix give
/// different results.
pub uninterp spec fn path_with_extension(path: Seq<char>, extension: Seq<char>) -> Seq<char>;

/// Whether a character separates the components of a path on some platform.
pub open spec fn is_separator(c: char) -> bool {
    c == '/' || c == '\\'
}

/// Calls `std::path::Path::with_extension` on a path that is valid UTF-8,
/// with an extension that is valid UTF-8. The result is the path that std
/// documents: the file name's extension replaced, or added where it had none.
/// std panics on an extension that holds a separator, so none is let in.
#[verifier::external_body]
fn with_extension(path: &str, extension: &str) -> (out: String)
    requires
        forall|i: int| 0 <= i < extension@.len() ==> !is_separator(#[trigger] extension@[i]),
    ensures
        out@ == path_with_extension(path@, extension@),
{
    std::path::Path::new(path).with_extension(extension).to_string_lossy().into_owned()
}

/// The stem of a program's path.
fn stem_of(path: &str) -> (stem: String)
    ensures
        stem@ == path_stem(path@),
{
    let n: usize = path.unicode_len();
    if n >= 4 && path.get_char(n - 4) == '.' && path.get_char(n - 3) == 'b' && path.get_char(n - 2)
        == 'i' && path.get_char(n - 1) == 'n' {
        assert(path@.subrange(n - 4, n as int) =~= bin_suffix());
        path.substring_char(0, n - 4).to_owned()
    } else {
        assert(!has_bin_suffix(path@)) by {
            if has_bin_suffix(path@) {
                let tail = path@.subrange(n - 4, n as int);
                assert(tail[0] == '.' && tail[1] == 'b' && tail[2] == 'i' && tail[3] == 'n');
            }
        }
        path.to_owned()
    }
}

/// Removes one trailing `.bin` from a program's path. A path that is not
/// valid UTF-8 arrives as `None` and is refused.
pub fn strip_bin_suffix(path: Option<&str>) -> (result: Result<String, Error>)
    ensures
        path is None ==> result == Err::<String, Error>(Error::NonUtf8Path),
        path matches Some(p) ==> result is Ok && result->Ok_0@ == path_stem(p@),
{
    match path {
        None => Err(Error::NonUtf8Path),
        Some(p) => Ok(stem_of(p)),
    }
}

/// The binary and the instruction text of the program with this stem.
pub fn program_paths(stem: &str) -> (paths: ProgramPaths)
    ensures
        paths.bin@ == stem@ + bin_suffix(),
        paths.text@ == stem@ + text_suffix(),
{
    proof {
        reveal_strlit(".bin");
        reveal_strlit(".text");
    }
    let bin = stem.to_owned().concat(".bin");
    let text = stem.to_owned().concat(".text");
    assert(".bin"@ =~= bin_suffix());
    assert(".text"@ =~= text_suffix());
    ProgramPaths { bin, text }
}

/// The instruction text that belongs to a binary when none is named: the
/// binary's path with the extension `text`.
pub fn derive_text_path(bin_path: &str) -> (out: String)
    ensures
        out@ == path_with_extension(bin_path@, seq!['t', 'e', 'x', 't']),
{
    proof {
        reveal_strlit("text");
    }
    assert("text"@ =~= seq!['t', 'e', 'x', 't']);
    with_extension(bin_path, "text")
}

/// The symbol table that belongs to a binary when none is named: the
/// program's stem with `.elf`.
pub fn derive_elf_path(bin_path: &str) -> (out: String)
    ensures
        out@ == path_stem(bin_path@) + elf_suffix(),
{
    proof {
        reveal_strlit(".elf");
    }
    assert(".elf"@ =~= elf_suffix());
    stem_of(bin_path).concat(".elf")
}

} // verus!
