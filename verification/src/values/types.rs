//! Files and directories as values of a workflow step.

use vstd::prelude::*;
use sha1::Digest;
use crate::text::digit_char;
use crate::values::path::{
    file_extension, file_extension_of, file_name, file_name_of, file_stem, file_stem_of,
};

verus! {

/// The SHA-1 digest of `contents`.
pub uninterp spec fn sha1(contents: Seq<u8>) -> Seq<u8>;

/// Calls `Sha1::digest` of the sha1 crate. The contract names the digest
/// that comes back, and states its length: twenty bytes.
#[verifier::external_body]
fn sha1_digest(contents: &[u8]) -> (digest: Vec<u8>)
    ensures
        digest@ == sha1(contents@),
        digest@.len() == 20,
{
    sha1::Sha1::digest(contents).to_vec()
}

/// The character of the hexadecimal digit `d`, in small letters.
pub open spec fn hex_char(d: nat) -> char
    recommends
        d < 16,
{
    if d < 10 {
        digit_char(d)
    } else if d == 10 {
        'a'
    } else if d == 11 {
        'b'
    } else if d == 12 {
        'c'
    } else if d == 13 {
        'd'
    } else if d == 14 {
        'e'
    } else {
        'f'
    }
}

/// `bytes` in hexadecimal: two digits for each byte, in small letters.
pub open spec fn hex_lower(bytes: Seq<u8>) -> Seq<char>
    decreases bytes.len(),
{
    if bytes.len() == 0 {
        Seq::empty()
    } else {
        hex_lower(bytes.drop_last()) + seq![
            hex_char(bytes.last() as nat / 16),
            hex_char(bytes.last() as nat % 16),
        ]
    }
}

/// The one-character text of the hexadecimal digit `d`.
fn hex_str(d: u8) -> (s: &'static str)
    requires
        d < 16,
    ensures
        s@ == seq![hex_char(d as nat)],
{
    proof {
        reveal_strlit("0");
        reveal_strlit("1");
        reveal_strlit("2");
        reveal_strlit("3");
        reveal_strlit("4");
        reveal_strlit("5");
        reveal_strlit("6");
        reveal_strlit("7");
        reveal_strlit("8");
        reveal_strlit("9");
        reveal_strlit("a");
        reveal_strlit("b");
        reveal_strlit("c");
        reveal_strlit("d");
        reveal_strlit("e");
        reveal_strlit("f");
    }
    let s = if d == 0 {
        "0"
    } else if d == 1 {
        "1"
    } else if d == 2 {
        "2"
    } else if d == 3 {
        "3"
    } else if d == 4 {
        "4"
    } else if d == 5 {
        "5"
    } else if d == 6 {
        "6"
    } else if d == 7 {
        "7"
    } else if d == 8 {
        "8"
    } else if d == 9 {
        "9"
    } else if d == 10 {
        "a"
    } else if d == 11 {
        "b"
    } else if d == 12 {
        "c"
    } else if d == 13 {
        "d"
    } else if d == 14 {
        "e"
    } else {
        "f"
    };
    assert(s@ =~= seq![hex_char(d as nat)]);
    s
}

/// `bytes` in hexadecimal, in small letters.
pub fn to_hex(bytes: &[u8]) -> (text: String)
    ensures
        text@ == hex_lower(bytes@),
{
    let mut text = String::new();
    let mut i: usize = 0;
    assert(bytes@.take(0) =~= Seq::<u8>::empty());
    while i < bytes.len()
        invariant
            i <= bytes.len(),
            text@ == hex_lower(bytes@.take(i as int)),
        decreases bytes.len() - i,
    {
        let byte: u8 = bytes[i];
        let ghost before = text@;
        text.append(hex_str(byte / 16));
        text.append(hex_str(byte % 16));
        proof {
            let head = bytes@.take(i + 1);
            assert(head.drop_last() =~= bytes@.take(i as int));
            assert(head.last() == byte);
            assert(text@ =~= before + seq![
                hex_char(byte as nat / 16),
                hex_char(byte as nat % 16),
            ]);
        }
        i += 1;
    }
    assert(bytes@.take(bytes.len() as int) =~= bytes@);
    text
}

/// The checksum of a file with the given contents: their SHA-1 digest in
/// hexadecimal.
pub open spec fn checksum_of(contents: Seq<u8>) -> Seq<char> {
    hex_lower(sha1(contents))
}

/// A file.
#[derive(Clone, Debug, PartialEq, Eq)]
pub struct CwlFile {
    /// Where the file lies, such as `/path/to/file.txt`.
    pub location: String,
    /// Name of the file, such as `file.txt`.
    pub basename: Option<String>,
    /// Name of the file without its extension, such as `file`.
    pub nameroot: Option<String>,
    /// Extension of the file, such as `txt`.
    pub nameext: Option<String>,
    /// Size of the file in bytes.
    pub size: Option<u64>,
    /// SHA-1 checksum of the file in hexadecimal.
    pub checksum: Option<String>,
}

/// What a `CwlFile` holds, as the contracts speak of it.
pub struct CwlFileView {
    pub location: Seq<char>,
    pub basename: Option<Seq<char>>,
    pub nameroot: Option<Seq<char>>,
    pub nameext: Option<Seq<char>>,
    pub size: Option<u64>,
    pub checksum: Option<Seq<char>>,
}

impl DeepView for CwlFile {
    type V = CwlFileView;

    open spec fn deep_view(&self) -> CwlFileView {
        CwlFileView {
            location: self.location@,
            basename: self.basename.deep_view(),
            nameroot: self.nameroot.deep_view(),
            nameext: self.nameext.deep_view(),
            size: self.size,
            checksum: self.checksum.deep_view(),
        }
    }
}

/// What is given, or else what is found.
pub open spec fn given_or<T>(given: Option<T>, found: Option<T>) -> Option<T> {
    match given {
        Some(value) => Some(value),
        None => found,
    }
}

/// The file at `location`, with each part that is not given filled in:
/// the names from the location, the size as it was measured, the checksum
/// from the contents.
pub open spec fn completed_file(
    location: Seq<char>,
    basename: Option<Seq<char>>,
    nameroot: Option<Seq<char>>,
    nameext: Option<Seq<char>>,
    size: Option<u64>,
    checksum: Option<Seq<char>>,
    measured: Option<u64>,
    contents: Option<Seq<u8>>,
) -> CwlFileView {
    CwlFileView {
        location,
        basename: given_or(basename, file_name_of(location)),
        nameroot: given_or(nameroot, file_stem_of(location)),
        nameext: given_or(nameext, file_extension_of(location)),
        size: given_or(size, measured),
        checksum: given_or(
            checksum,
            match contents {
                Some(bytes) => Some(checksum_of(bytes)),
                None => None,
            },
        ),
    }
}

impl CwlFile {
    /// Where the file lies.
    pub fn location(&self) -> (location: String)
        ensures
            location@ == self.location@,
    {
        self.location.clone()
    }

    /// Where the file lies.
    pub fn get_location(&self) -> (location: String)
        ensures
            location@ == self.location@,
    {
        self.location.clone()
    }

    /// The checksum of a file with the given contents.
    pub fn calculate_checksum(contents: &[u8]) -> (checksum: String)
        ensures
            checksum@ == checksum_of(contents@),
            checksum@.len() == 40,
    {
        let digest = sha1_digest(contents);
        proof {
            lemma_hex_length(digest@);
        }
        to_hex(digest.as_slice())
    }

    /// A part of a file: the one that is provided, or else what `extractor`
    /// makes of the path.
    pub fn extract_path_info<F, T>(path: &str, provided: Option<T>, extractor: F) -> (info: Option<
        T,
    >) where F: Fn(&str) -> Option<T>
        requires
            provided is None ==> call_requires(extractor, (path,)),
        ensures
            provided is Some ==> info == provided,
            provided is None ==> call_ensures(extractor, (path,), info),
    {
        match provided {
            Some(value) => Some(value),
            None => extractor(path),
        }
    }

    /// The name of the file at `path`, unless one is provided.
    pub fn basename(path: &str, provided_basename: Option<String>) -> (basename: Option<String>)
        ensures
            basename.deep_view() == given_or(provided_basename.deep_view(), file_name_of(path@)),
    {
        let extractor = |p: &str| -> (name: Option<String>)
            ensures
                name.deep_view() == file_name_of(p@),
            { file_name(p) };
        Self::extract_path_info(path, provided_basename, extractor)
    }

    /// The name without extension of the file at `path`, unless one is
    /// provided.
    pub fn nameroot(path: &str, provided_nameroot: Option<String>) -> (nameroot: Option<String>)
        ensures
            nameroot.deep_view() == given_or(provided_nameroot.deep_view(), file_stem_of(path@)),
    {
        let extractor = |p: &str| -> (stem: Option<String>)
            ensures
                stem.deep_view() == file_stem_of(p@),
            { file_stem(p) };
        Self::extract_path_info(path, provided_nameroot, extractor)
    }

    /// The extension of the file at `path`, unless one is provided.
    pub fn nameext(path: &str, provided_nameext: Option<String>) -> (nameext: Option<String>)
        ensures
            nameext.deep_view() == given_or(
                provided_nameext.deep_view(),
                file_extension_of(path@),
            ),
    {
        let extractor = |p: &str| -> (extension: Option<String>)
            ensures
                extension.deep_view() == file_extension_of(p@),
            { file_extension(p) };
        Self::extract_path_info(path, provided_nameext, extractor)
    }

    /// The size of a file: the one that is provided, or else the one that
    /// was measured.
    pub fn size(provided_size: Option<u64>, measured: Option<u64>) -> (size: Option<u64>)
        ensures
            size == given_or(provided_size, measured),
    {
        match provided_size {
            Some(size) => Some(size),
            None => measured,
        }
    }

    /// The checksum of a file: the one that is provided, or else the one
    /// of its contents, where they could be read.
    pub fn checksum(contents: Option<&[u8]>, provided_checksum: Option<String>) -> (checksum:
        Option<String>)
        ensures
            checksum.deep_view() == given_or(
                provided_checksum.deep_view(),
                match contents {
                    Some(bytes) => Some(checksum_of(bytes@)),
                    None => None,
                },
            ),
    {
        match provided_checksum {
            Some(checksum) => Some(checksum),
            None => match contents {
                Some(bytes) => Some(Self::calculate_checksum(bytes)),
                None => None,
            },
        }
    }

    /// The file at `location`, with each part that is not given filled in.
    /// `measured` is the size of the file and `contents` what it holds,
    /// where they could be had.
    pub fn new(
        location: String,
        basename: Option<String>,
        nameroot: Option<String>,
        nameext: Option<String>,
        size: Option<u64>,
        checksum: Option<String>,
        measured: Option<u64>,
        contents: Option<&[u8]>,
    ) -> (file: CwlFile)
        ensures
            file.deep_view() == completed_file(
                location@,
                basename.deep_view(),
                nameroot.deep_view(),
                nameext.deep_view(),
                size,
                checksum.deep_view(),
                measured,
                match contents {
                    Some(bytes) => Some(bytes@),
                    None => None,
                },
            ),
    {
        let basename = Self::basename(location.as_str(), basename);
        let nameroot = Self::nameroot(location.as_str(), nameroot);
        let nameext = Self::nameext(location.as_str(), nameext);
        let size = Self::size(size, measured);
        let checksum = Self::checksum(contents, checksum);
        CwlFile { location, basename, nameroot, nameext, size, checksum }
    }
}

/// Hexadecimal takes two characters for each byte.
pub proof fn lemma_hex_length(bytes: Seq<u8>)
    ensures
        hex_lower(bytes).len() == 2 * bytes.len(),
    decreases bytes.len(),
{
    if bytes.len() > 0 {
        lemma_hex_length(bytes.drop_last());
    }
}

/// A file or a directory.
#[derive(Clone, Debug, PartialEq, Eq)]
pub enum CwlPath {
    File(CwlFile),
    Directory(CwlDirectory),
}

/// A directory.
#[derive(Clone, Debug, PartialEq, Eq)]
pub struct CwlDirectory {
    pub location: String,
}

impl CwlDirectory {
    /// Where the directory lies.
    pub fn location(&self) -> (location: &str)
        ensures
            location@ == self.location@,
    {
        self.location.as_str()
    }

    /// Where the directory lies.
    pub fn get_location(&self) -> (location: &str)
        ensures
            location@ == self.location@,
    {
        self.location.as_str()
    }
}

} // verus!
