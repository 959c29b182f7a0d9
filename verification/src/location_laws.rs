//! What the name and the extension of a path are, and what its URI is made of.

use vstd::prelude::*;

use crate::location;
use crate::location::SystemPath;

verus! {

/// Whether a text has no slash and names something: it is neither empty nor made
/// of one or two full stops.
pub open spec fn is_name(name: Seq<char>) -> bool {
    &&& name.len() > 0
    &&& !name.contains('/')
    &&& !(name.len() == 1 && name[0] == '.')
    &&& !(name.len() == 2 && name[0] == '.' && name[1] == '.')
}

proof fn lemma_last_place(text: Seq<char>, character: char)
    ensures
        ({
            let place = location::last_index(text, character);
            &&& -1 <= place < text.len()
            &&& place >= 0 ==> text[place] == character
            &&& forall|i: int| place < i < text.len() ==> #[trigger] text[i] != character
        }),
    decreases text.len(),
{
    if text.len() > 0 && text.last() != character {
        let shorter = text.drop_last();
        lemma_last_place(shorter, character);
        let place = location::last_index(text, character);
        assert forall|i: int| place < i < text.len() implies #[trigger] text[i] != character by {
            if i < shorter.len() {
                assert(shorter[i] == text[i]);
            }
        }
    }
}

proof fn lemma_place_is_last(text: Seq<char>, character: char, place: int)
    requires
        -1 <= place < text.len(),
        place >= 0 ==> text[place] == character,
        forall|i: int| place < i < text.len() ==> #[trigger] text[i] != character,
    ensures
        location::last_index(text, character) == place,
{
    lemma_last_place(text, character);
    let found = location::last_index(text, character);
    if found > place {
        assert(text[found] != character);
    }
    if place > found {
        assert(text[place] != character);
    }
}

/// The name of a path is what follows its last slash, where that names something.
pub proof fn law_names_follow_the_last_slash(folder: Seq<char>, name: Seq<char>)
    requires
        is_name(name),
    ensures
        location::path_name(folder + seq!['/'] + name) == Some(name),
        location::path_name(name) == Some(name),
{
    let path = folder + seq!['/'] + name;
    assert forall|i: int| folder.len() < i < path.len() implies #[trigger] path[i] != '/' by {
        assert(path[i] == name[i - folder.len() - 1]);
        assert(name.contains(path[i]));
    }
    lemma_place_is_last(path, '/', folder.len() as int);
    assert(path.skip(folder.len() + 1int) =~= name);
    assert forall|i: int| -1 < i < name.len() implies #[trigger] name[i] != '/' by {
        assert(name.contains(name[i]));
    }
    lemma_place_is_last(name, '/', -1);
    assert(name.skip(0) =~= name);
}

/// A slash at the end of a path does not change its name, and neither does a full
/// stop behind one; two full stops there leave it without a name, and so does
/// nothing at all.
pub proof fn law_trailing_slashes_name_nothing(path: Seq<char>)
    ensures
        location::path_name(path + seq!['/']) == location::path_name(path),
        location::path_name(path + seq!['/', '.']) == location::path_name(path),
        location::path_name(path + seq!['/', '.', '.']) is None,
        location::path_name(Seq::empty()) is None,
        location::path_name(seq!['.']) is None,
        location::path_name(seq!['.', '.']) is None,
{
    let size = path.len() as int;
    let first = path + seq!['/'];
    lemma_place_is_last(first, '/', size);
    assert(first.skip(size + 1) =~= Seq::<char>::empty());
    assert(first.take(size) =~= path);
    let second = path + seq!['/', '.'];
    lemma_place_is_last(second, '/', size);
    assert(second.skip(size + 1) =~= seq!['.']);
    assert(second.take(size) =~= path);
    let third = path + seq!['/', '.', '.'];
    lemma_place_is_last(third, '/', size);
    assert(third.skip(size + 1) =~= seq!['.', '.']);
    lemma_place_is_last(Seq::empty(), '/', -1);
    assert(Seq::<char>::empty().skip(0) =~= Seq::<char>::empty());
    lemma_place_is_last(seq!['.'], '/', -1);
    assert(seq!['.'].skip(0) =~= seq!['.']);
    lemma_place_is_last(seq!['.', '.'], '/', -1);
    assert(seq!['.', '.'].skip(0) =~= seq!['.', '.']);
    assert(seq!['.', '.'].len() == 2 && seq!['.'].len() == 1);
}

/// The extension of a path is what follows the last full stop of its name, unless
/// that begins the name; a name without one has none.
pub proof fn law_extensions_follow_the_last_stop(
    folder: Seq<char>,
    stem: Seq<char>,
    extension: Seq<char>,
)
    requires
        !extension.contains('.'),
        !extension.contains('/'),
        !stem.contains('/'),
        is_name(stem + seq!['.'] + extension),
    ensures
        location::extension_text(folder + seq!['/'] + (stem + seq!['.'] + extension)) == if stem.len()
            > 0 {
            extension
        } else {
            Seq::empty()
        },
        location::extension_text(stem + seq!['.'] + extension) == if stem.len() > 0 {
            extension
        } else {
            Seq::empty()
        },
        is_name(extension) ==> location::extension_text(folder + seq!['/'] + extension).len() == 0,
{
    let name = stem + seq!['.'] + extension;
    law_names_follow_the_last_slash(folder, name);
    assert forall|i: int| stem.len() < i < name.len() implies #[trigger] name[i] != '.' by {
        assert(name[i] == extension[i - stem.len() - 1]);
        assert(extension.contains(name[i]));
    }
    lemma_place_is_last(name, '.', stem.len() as int);
    assert(name.skip(stem.len() + 1int) =~= extension);
    if is_name(extension) {
        law_names_follow_the_last_slash(folder, extension);
        assert forall|i: int| -1 < i < extension.len() implies #[trigger] extension[i] != '.' by {
            assert(extension.contains(extension[i]));
        }
        lemma_place_is_last(extension, '.', -1);
    }
}

/// A project's folder has the name of its root, and its URI is that of the root
/// as a file, ended with a slash; a source's URI is that of its path. A path that
/// is no text brings its own.
pub proof fn law_locations_are_of_their_paths(path: SystemPath)
    ensures
        match path {
            SystemPath::Text(text) => {
                &&& location::folder_name(path) == location::path_name(text@)
                &&& location::project_location(path) is Some <==> location::source_location(path)
                    is Some
                &&& location::project_location(path) matches Some(project) ==> {
                    let source = location::source_location(path)->Some_0;
                    &&& project.len() > 0 && project.last() == '/'
                    &&& project == source || project == source.push('/')
                }
            },
            SystemPath::Other { uri, name } => {
                &&& location::source_location(path) == location::project_location(path)
                &&& match uri {
                    Some(uri) => location::source_location(path) == Some(uri@),
                    None => location::source_location(path) is None,
                }
                &&& match name {
                    Some(name) => location::folder_name(path) == Some(name@),
                    None => location::folder_name(path) is None,
                }
            },
        },
{
}

} // verus!
