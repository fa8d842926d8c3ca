//! Paths on the host. What makes one absolute is for the host to say; a relative
//! one is joined to a base with the separator of the host, which also tells whether the
//! host knows drives and network shares.

use crate::path;
use crate::path::split_text;
use crate::text;
use crate::text::{chars_of, push_char, string_of};
use vstd::prelude::*;

verus! {

/// A host path as the user means it: absolute, or why it could not be told.
#[derive(Debug)]
pub enum HostPath {
    Absolute(String),
    Unresolved(String),
}

/// Whether a character separates the components of a host path. A host that separates
/// them with backslashes takes slashes too.
pub open spec fn separates(c: char, separator: char) -> bool {
    c == separator || (separator == '\\' && c == '/')
}

/// The number of characters before the first separator, or of all of them.
pub open spec fn leading(path: Seq<char>, separator: char) -> nat
    decreases path.len(),
{
    if path.len() == 0 || separates(path[0], separator) {
        0
    } else {
        1 + leading(path.skip(1), separator)
    }
}

/// How long the drive or the network share is that a path names at its beginning. Only
/// hosts that separate components with backslashes have them.
pub open spec fn prefix_length(path: Seq<char>, separator: char) -> nat {
    if separator != '\\' || path.len() < 2 {
        0
    } else if path[1] == ':' && ('a' <= path[0] <= 'z' || 'A' <= path[0] <= 'Z') {
        2
    } else if separates(path[0], separator) && separates(path[1], separator) {
        let server = leading(path.skip(2), separator);
        let share = if 2 + server < path.len() {
            leading(path.skip(3 + server as int), separator)
        } else {
            0
        };
        if server == 0 || share == 0 {
            0
        } else {
            3 + server + share
        }
    } else {
        0
    }
}

/// Whether a component begins at a root.
pub open spec fn rooted(component: Seq<char>, separator: char) -> bool {
    component.len() > 0 && separates(component[0], separator)
}

/// A host path with one more component. One that names a drive or a share stands for
/// itself, and of a base that is followed by a root only its own drive or share is left.
pub open spec fn host_joined(base: Seq<char>, component: Seq<char>, separator: char) -> Seq<char> {
    let prefix = prefix_length(base, separator);
    if prefix_length(component, separator) > 0 {
        component
    } else if rooted(component, separator) {
        base.take(prefix as int) + component
    } else if base.len() == 0 || separates(base.last(), separator) || (prefix == 2 && base.len()
        == 2) {
        base + component
    } else {
        base + seq![separator] + component
    }
}

fn is_separator(c: char, separator: char) -> (is: bool)
    ensures
        is == separates(c, separator),
{
    c == separator || (separator == '\\' && c == '/')
}

fn leading_of(chars: &Vec<char>, start: usize, separator: char) -> (count: usize)
    requires
        start <= chars@.len(),
    ensures
        count == leading(chars@.skip(start as int), separator),
        count <= chars@.len() - start,
{
    let mut i: usize = start;
    while i < chars.len() && !is_separator(chars[i], separator)
        invariant
            start <= i <= chars@.len(),
            leading(chars@.skip(start as int), separator) == i - start + leading(
                chars@.skip(i as int),
                separator,
            ),
        decreases chars@.len() - i,
    {
        assert(chars@.skip(i as int).skip(1) =~= chars@.skip(i + 1));
        i += 1;
    }
    assert(leading(chars@.skip(i as int), separator) == 0);
    i - start
}

fn prefix_of(chars: &Vec<char>, separator: char) -> (length: usize)
    ensures
        length == prefix_length(chars@, separator),
        length <= chars@.len(),
{
    if separator != '\\' || chars.len() < 2 {
        return 0;
    }
    let first = chars[0];
    if chars[1] == ':' && (('a' <= first && first <= 'z') || ('A' <= first && first <= 'Z')) {
        return 2;
    }
    if !is_separator(first, separator) || !is_separator(chars[1], separator) {
        return 0;
    }
    let server: usize = leading_of(chars, 2, separator);
    if server == 0 || server == chars.len() - 2 {
        return 0;
    }
    let share: usize = leading_of(chars, 3 + server, separator);
    if share == 0 {
        0
    } else {
        3 + server + share
    }
}

/// A host path with one more component.
pub fn join_host_path(base: &str, component: &str, separator: char) -> (path: String)
    ensures
        path@ == host_joined(base@, component@, separator),
{
    let below = chars_of(component);
    if prefix_of(&below, separator) > 0 {
        return component.to_owned();
    }
    let chars = chars_of(base);
    let prefix: usize = prefix_of(&chars, separator);
    if below.len() > 0 && is_separator(below[0], separator) {
        let mut path = string_of(vstd::slice::slice_subrange(chars.as_slice(), 0, prefix));
        path.append(component);
        assert(path@ =~= host_joined(chars@, component@, separator));
        return path;
    }
    let mut path = base.to_owned();
    if chars.len() > 0 && !is_separator(chars[chars.len() - 1], separator) && !(prefix == 2
        && chars.len() == 2) {
        push_char(&mut path, separator);
    }
    path.append(component);
    assert(path@ =~= host_joined(chars@, component@, separator));
    path
}

/// A host path with several more components.
pub open spec fn path_below(
    base: Seq<char>,
    components: Seq<Seq<char>>,
    separator: char,
) -> Seq<char>
    decreases components.len(),
{
    if components.len() == 0 {
        base
    } else {
        host_joined(
            path_below(base, components.drop_last(), separator),
            components.last(),
            separator,
        )
    }
}

/// Where a path below the root of a tree lies on the host, whose path separator
/// is this character.
pub fn local_tree_path(root: &str, relative: &str, separator: char) -> (path: String)
    ensures
        path@ == path_below(root@, path::split(relative@, '/'), separator),
{
    let components = split_text(relative, '/');
    let ghost all = text::all(components@);
    let mut path = root.to_owned();
    let mut i: usize = 0;
    assert(all.take(0) =~= Seq::<Seq<char>>::empty());
    while i < components.len()
        invariant
            i <= components@.len(),
            all == text::all(components@),
            path@ == path_below(root@, all.take(i as int), separator),
        decreases components@.len() - i,
    {
        assert(all.take(i + 1).drop_last() =~= all.take(i as int));
        path = join_host_path(path.as_str(), components[i].as_str(), separator);
        i += 1;
    }
    assert(all.take(i as int) =~= all);
    path
}

/// The absolute form of a host path: a relative one counts from the current
/// directory.
pub open spec fn resolved(
    path: Seq<char>,
    is_absolute: bool,
    current_directory: Result<String, String>,
    separator: char,
) -> Result<Seq<char>, Seq<char>> {
    if is_absolute {
        Ok(path)
    } else {
        match current_directory {
            Ok(directory) => Ok(host_joined(directory@, path, separator)),
            Err(message) => Err(message@),
        }
    }
}

/// Makes a host path absolute.
pub fn normalize_host_path(
    path: &str,
    is_absolute: bool,
    current_directory: Result<String, String>,
    separator: char,
) -> (result: HostPath)
    ensures
        match result {
            HostPath::Absolute(absolute) => resolved(
                path@,
                is_absolute,
                current_directory,
                separator,
            ) == Ok::<_, Seq<char>>(absolute@),
            HostPath::Unresolved(message) => resolved(
                path@,
                is_absolute,
                current_directory,
                separator,
            ) == Err::<Seq<char>, _>(message@),
        },
{
    if is_absolute {
        HostPath::Absolute(path.to_owned())
    } else {
        match current_directory {
            Ok(directory) => HostPath::Absolute(join_host_path(directory.as_str(), path, separator)),
            Err(message) => HostPath::Unresolved(message),
        }
    }
}

/// A path with more components lies below the path that it began with, unless one of
/// them begins anew at a root, a drive or a share.
pub proof fn longer_paths_lie_below(base: Seq<char>, components: Seq<Seq<char>>, separator: char)
    requires
        forall|i: int|
            0 <= i < components.len() ==> !rooted(#[trigger] components[i], separator)
                && prefix_length(components[i], separator) == 0,
    ensures
        base.is_prefix_of(path_below(base, components, separator)),
    decreases components.len(),
{
    if components.len() > 0 {
        let fewer = components.drop_last();
        assert forall|i: int| 0 <= i < fewer.len() implies !rooted(#[trigger] fewer[i], separator)
            && prefix_length(fewer[i], separator) == 0 by {
            assert(fewer[i] == components[i]);
        }
        assert(components.last() == components[components.len() - 1]);
        let shorter = path_below(base, fewer, separator);
        longer_paths_lie_below(base, fewer, separator);
        let longer = host_joined(shorter, components.last(), separator);
        assert(shorter.is_prefix_of(longer));
        assert(base =~= longer.take(base.len() as int)) by {
            assert(base =~= shorter.take(base.len() as int));
        }
    }
}

/// A component is put behind its base with one separator between them: the base comes
/// first, the component last, and nothing is added where the base already ends in a
/// separator, is empty or is a bare drive.
pub proof fn components_are_kept_apart(base: Seq<char>, component: Seq<char>, separator: char)
    requires
        !rooted(component, separator),
        prefix_length(component, separator) == 0,
    ensures
        ({
            let path = host_joined(base, component, separator);
            let between = path.len() - base.len() - component.len();
            &&& base.is_prefix_of(path)
            &&& path.skip(base.len() + between) == component
            &&& 0 <= between <= 1
            &&& base.len() == 0 || separates(base.last(), separator) ==> between == 0
            &&& between == 1 ==> path[base.len() as int] == separator
            &&& base.len() > 0 && !(separator == '\\' && base.len() == 2) ==> separates(
                path[base.len() + between - 1],
                separator,
            )
        }),
{
    let path = host_joined(base, component, separator);
    let between = path.len() - base.len() - component.len();
    assert(path.skip(base.len() + between) =~= component);
    assert(base =~= path.take(base.len() as int));
}

/// A component that begins at a root starts anew: on a host without drives nothing of
/// the base is left.
pub proof fn roots_start_anew(base: Seq<char>, component: Seq<char>)
    requires
        rooted(component, '/'),
    ensures
        host_joined(base, component, '/') == component,
{
    assert(host_joined(base, component, '/') =~= component);
}

/// On a host that separates components with slashes, the components of a path below a
/// base are those of the base and then those that were added, in order: none is lost
/// and none is merged with another.
pub proof fn components_come_apart_again(base: Seq<char>, components: Seq<Seq<char>>)
    requires
        base.len() > 0,
        base.last() != '/',
        forall|i: int|
            0 <= i < components.len() ==> (#[trigger] components[i]).len() > 0
                && !components[i].contains('/'),
    ensures
        path::split(path_below(base, components, '/'), '/') == path::split(base, '/') + components,
        path_below(base, components, '/').len() > 0,
        path_below(base, components, '/').last() != '/',
    decreases components.len(),
{
    if components.len() == 0 {
        assert(path::split(base, '/') + components =~= path::split(base, '/'));
    } else {
        let fewer = components.drop_last();
        assert forall|i: int| 0 <= i < fewer.len() implies (#[trigger] fewer[i]).len() > 0
            && !fewer[i].contains('/') by {
            assert(fewer[i] == components[i]);
        }
        components_come_apart_again(base, fewer);
        let shorter = path_below(base, fewer, '/');
        let last = components.last();
        assert(last == components[components.len() - 1]);
        assert(last.contains(last[0]));
        assert(last.contains(last[last.len() - 1]));
        path::split_append(shorter, last, '/');
        assert(path::split(base, '/') + components =~= (path::split(base, '/') + fewer).push(last));
    }
}

/// An absolute path is taken as it is, and a relative one counts from the current
/// directory; only where that cannot be told is a relative path not resolved.
pub proof fn relative_paths_count_from_the_current_directory(
    path: Seq<char>,
    is_absolute: bool,
    current_directory: Result<String, String>,
    separator: char,
)
    ensures
        is_absolute ==> resolved(path, is_absolute, current_directory, separator) == Ok::<
            _,
            Seq<char>,
        >(path),
        resolved(path, is_absolute, current_directory, separator) is Err <==> !is_absolute
            && current_directory is Err,
        !is_absolute && !rooted(path, separator) && prefix_length(path, separator) == 0 ==> (
        current_directory matches Ok(directory) ==> resolved(
            path,
            is_absolute,
            current_directory,
            separator,
        ) is Ok && directory@.is_prefix_of(
            resolved(path, is_absolute, current_directory, separator)->Ok_0,
        )),
{
    if let Ok(directory) = current_directory {
        if !rooted(path, separator) && prefix_length(path, separator) == 0 {
            components_are_kept_apart(directory@, path, separator);
        }
    }
}

/// A drive is named by a letter of either case before a colon, on hosts with backslashes
/// only: what follows it counts from that drive, wherever the path is put.
pub proof fn drives_are_named_by_a_letter(
    letter: char,
    rest: Seq<char>,
    base: Seq<char>,
    separator: char,
)
    requires
        'a' <= letter <= 'z' || 'A' <= letter <= 'Z',
    ensures
        prefix_length(seq![letter, ':'] + rest, '\\') == 2,
        host_joined(base, seq![letter, ':'] + rest, '\\') == seq![letter, ':'] + rest,
        separator != '\\' ==> prefix_length(seq![letter, ':'] + rest, separator) == 0,
{
    let path = seq![letter, ':'] + rest;
    assert(path[0] == letter && path[1] == ':');
}

} // verus!
