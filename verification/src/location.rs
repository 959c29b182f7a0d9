//! The names and file URIs of a project and its source.

use vstd::prelude::*;

use crate::order;

verus! {

/// A path of the operating system.
#[derive(Clone, Debug, PartialEq, Eq)]
pub enum SystemPath {
    /// A path that is UTF-8 text.
    Text(String),
    /// Any other path.
    Other {
        /// The file URI of its bytes, where it has one.
        uri: Option<String>,
        /// Its final component, where that is UTF-8 text.
        name: Option<String>,
    },
}

/// The index of the last occurrence of a character, or -1.
pub open spec fn last_index(text: Seq<char>, character: char) -> int
    decreases text.len(),
{
    if text.len() == 0 {
        -1
    } else if text.last() == character {
        text.len() - 1
    } else {
        last_index(text.drop_last(), character)
    }
}

/// The last occurrence of a character lies in the text.
pub proof fn lemma_last_index(text: Seq<char>, character: char)
    ensures
        -1 <= last_index(text, character) < text.len(),
    decreases text.len(),
{
    if text.len() > 0 {
        lemma_last_index(text.drop_last(), character);
    }
}

/// The name of a path of a Unix system: its last component, where trailing
/// slashes and single full stops do not count, and none where that is two full
/// stops or nothing.
pub open spec fn path_name(path: Seq<char>) -> Option<Seq<char>>
    decreases path.len(),
{
    let slash = last_index(path, '/');
    let component = path.skip(slash + 1);
    if component.len() == 0 || component == seq!['.'] {
        if slash < 0 {
            None
        } else {
            proof {
                lemma_last_index(path, '/');
            }
            path_name(path.take(slash))
        }
    } else if component == seq!['.', '.'] {
        None
    } else {
        Some(component)
    }
}

/// The extension of a path: what follows the last full stop of its name,
/// unless the name has none or only begins with one.
pub open spec fn path_extension(path: Seq<char>) -> Option<Seq<char>> {
    match path_name(path) {
        Some(name) => if last_index(name, '.') > 0 {
            Some(name.skip(last_index(name, '.') + 1))
        } else {
            None
        },
        None => None,
    }
}

/// Returns the characters of a text.
fn characters(text: &str) -> (characters: Vec<char>)
    ensures
        characters@ == text@,
{
    let mut characters: Vec<char> = Vec::new();
    for character in chars: text.chars()
        invariant
            chars.seq() == text@,
            characters@ == text@.take(chars.index() as int),
    {
        assert(text@.take(chars.index() + 1) =~= text@.take(chars.index() as int).push(character));
        characters.push(character);
    }
    assert(text@.take(text@.len() as int) =~= text@);
    characters
}

/// Returns where the characters after the last occurrence of a character among
/// the first `end` ones start: at zero where it does not occur.
fn after_last(characters: &Vec<char>, end: usize, character: char) -> (start: usize)
    requires
        end <= characters@.len(),
    ensures
        start <= end,
        start == last_index(characters@.take(end as int), character) + 1,
{
    let mut start: usize = end;
    while start > 0
        invariant
            start <= end <= characters@.len(),
            last_index(characters@.take(end as int), character) == last_index(
                characters@.take(start as int),
                character,
            ),
        decreases start,
    {
        let ghost taken = characters@.take(start as int);
        assert(taken.drop_last() =~= characters@.take(start - 1));
        if characters[start - 1] == character {
            return start;
        }
        start = start - 1;
    }
    start
}

/// Returns the characters between two places as text.
fn text_between(characters: &Vec<char>, start: usize, end: usize) -> (text: String)
    requires
        start <= end <= characters@.len(),
    ensures
        text@ == characters@.subrange(start as int, end as int),
{
    let mut text = String::new();
    let mut index: usize = start;
    assert(text@ =~= characters@.subrange(start as int, start as int));
    while index < end
        invariant
            start <= index <= end <= characters@.len(),
            text@ == characters@.subrange(start as int, index as int),
        decreases end - index,
    {
        assert(characters@.subrange(start as int, index + 1) =~= characters@.subrange(
            start as int,
            index as int,
        ).push(characters@[index as int]));
        text.push(characters[index]);
        index = index + 1;
    }
    text
}

/// Returns the name of a path.
fn path_name_of(path: &str) -> (name: Option<String>)
    ensures
        order::optional_text(name) == path_name(path@),
{
    let characters = characters(path);
    let mut end: usize = characters.len();
    assert(path@.take(end as int) =~= path@);
    loop
        invariant
            end <= characters@.len(),
            characters@ == path@,
            path_name(path@) == path_name(path@.take(end as int)),
        decreases end,
    {
        let ghost taken = path@.take(end as int);
        let start: usize = after_last(&characters, end, '/');
        let ghost component = taken.skip(start as int);
        let length: usize = end - start;
        let stops: bool = (length == 1 && characters[start] == '.') || (length == 2
            && characters[start] == '.' && characters[start + 1] == '.');
        proof {
            if length == 1 && component[0] == '.' {
                assert(component =~= seq!['.']);
            }
            if length == 2 && component[0] == '.' && component[1] == '.' {
                assert(component =~= seq!['.', '.']);
            }
            assert(component.len() == length);
            assert(forall|i: int| 0 <= i < length ==> component[i] == path@[start + i]);
        }
        if length == 0 || (length == 1 && stops) {
            if start == 0 {
                return None;
            }
            assert(taken.take(start - 1) =~= path@.take(start - 1));
            end = start - 1;
        } else if stops {
            return None;
        } else {
            let name = text_between(&characters, start, end);
            assert(name@ =~= component);
            return Some(name);
        }
    }
}

/// Returns the extension of a path.
fn path_extension_of(path: &str) -> (extension: Option<String>)
    ensures
        order::optional_text(extension) == path_extension(path@),
{
    match path_name_of(path) {
        Some(name) => {
            let characters = characters(name.as_str());
            let end: usize = characters.len();
            let start: usize = after_last(&characters, end, '.');
            assert(name@.take(end as int) =~= name@);
            if start > 1 {
                let extension = text_between(&characters, start, end);
                assert(extension@ =~= name@.skip(start as int));
                Some(extension)
            } else {
                None
            }
        },
        None => None,
    }
}

/// The extension by which a server is chosen for a source; empty for none.
pub open spec fn extension_text(path: Seq<char>) -> Seq<char> {
    match path_extension(path) {
        Some(extension) => extension,
        None => Seq::empty(),
    }
}

/// Returns the extension by which a server is chosen for a source.
pub fn source_extension(path: &str) -> (extension: String)
    ensures
        extension@ == extension_text(path@),
{
    match path_extension_of(path) {
        Some(extension) => extension,
        None => {
            let none = String::new();
            assert(none@ =~= Seq::<char>::empty());
            none
        },
    }
}

/// The name of a project's folder, where its root has one that is UTF-8.
pub open spec fn folder_name(path: SystemPath) -> Option<Seq<char>> {
    match path {
        SystemPath::Text(path) => path_name(path@),
        SystemPath::Other { name, .. } => order::optional_text(name),
    }
}

/// Returns the name of a project's folder, where its root has one that is
/// UTF-8.
pub fn name_folder(path: &SystemPath) -> (name: Option<String>)
    ensures
        order::optional_text(name) == folder_name(*path),
{
    match path {
        SystemPath::Text(path) => path_name_of(path.as_str()),
        SystemPath::Other { name, .. } => match name {
            Some(name) => Some(name.clone()),
            None => None,
        },
    }
}

/// The URI that `url::Url::from_file_path` makes of a path, or nothing where it
/// refuses the path.
pub uninterp spec fn file_uri(path: Seq<char>) -> Option<Seq<char>>;

/// The URI of a directory: that of its path, ended with a slash.
pub open spec fn directory_uri(path: Seq<char>) -> Option<Seq<char>> {
    match file_uri(path) {
        Some(uri) => Some(
            if uri.len() > 0 && uri.last() == '/' {
                uri
            } else {
                uri.push('/')
            },
        ),
        None => None,
    }
}

/// Makes the URI of a file with `url::Url::from_file_path`.
///
/// On the Unix systems that the commands serve, the outcome depends on the
/// path's text alone and is named [`file_uri`].
#[verifier::external_body]
fn file_uri_of(path: &str) -> (uri: Option<String>)
    ensures
        order::optional_text(uri) == file_uri(path@),
{
    url::Url::from_file_path(path).ok().map(String::from)
}

/// Makes the URI of a directory with `url::Url::from_directory_path`: the one
/// that `url::Url::from_file_path` makes, with a slash at its end.
#[verifier::external_body]
fn directory_uri_of(path: &str) -> (uri: Option<String>)
    ensures
        order::optional_text(uri) == directory_uri(path@),
{
    url::Url::from_directory_path(path).ok().map(String::from)
}

/// The URI of a source file.
pub open spec fn source_location(path: SystemPath) -> Option<Seq<char>> {
    match path {
        SystemPath::Text(path) => file_uri(path@),
        SystemPath::Other { uri, .. } => order::optional_text(uri),
    }
}

/// The URI of a project's root.
pub open spec fn project_location(path: SystemPath) -> Option<Seq<char>> {
    match path {
        SystemPath::Text(path) => directory_uri(path@),
        SystemPath::Other { uri, .. } => order::optional_text(uri),
    }
}

/// Returns the URI of a source file, where its path has one.
pub fn locate_source(path: SystemPath) -> (uri: Option<String>)
    ensures
        order::optional_text(uri) == source_location(path),
{
    match path {
        SystemPath::Text(path) => file_uri_of(path.as_str()),
        SystemPath::Other { uri, .. } => uri,
    }
}

/// Returns the URI of a project's root, where its path has one.
pub fn locate_project(path: SystemPath) -> (uri: Option<String>)
    ensures
        order::optional_text(uri) == project_location(path),
{
    match path {
        SystemPath::Text(path) => directory_uri_of(path.as_str()),
        SystemPath::Other { uri, .. } => uri,
    }
}

} // verus!
