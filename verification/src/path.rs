//! Device paths: relative, with components separated by `/`.

use crate::rpc_error;
use crate::rpc_error::RpcError;
use crate::text;
use crate::text::{chars_of, push_char};
use vstd::prelude::*;

verus! {

/// The pieces of a text between occurrences of a separator.
pub open spec fn split(text: Seq<char>, separator: char) -> Seq<Seq<char>>
    decreases text.len(),
{
    if text.len() == 0 {
        seq![Seq::empty()]
    } else {
        let pieces = split(text.drop_last(), separator);
        if text.last() == separator {
            pieces.push(Seq::empty())
        } else {
            pieces.drop_last().push(pieces.last().push(text.last()))
        }
    }
}

/// What stands before the first occurrence of a character, or the whole text.
pub open spec fn until(text: Seq<char>, stop: char) -> Seq<char>
    decreases text.len(),
{
    if text.len() == 0 || text[0] == stop {
        Seq::empty()
    } else {
        seq![text[0]] + until(text.skip(1), stop)
    }
}

/// Whether a path component names something below its parent.
pub open spec fn is_component(component: Seq<char>) -> bool {
    component.len() > 0 && component != seq!['.'] && component != seq!['.', '.']
}

/// Whether a path is relative and normalized: no component is empty, a dot or
/// a double dot, and no backslash occurs.
pub open spec fn is_normalized(path: Seq<char>) -> bool {
    &&& !path.contains('\\')
    &&& forall|i: int|
        0 <= i < split(path, '/').len() ==> is_component(#[trigger] split(path, '/')[i])
}

/// The directories above a path: the text before each of its separators.
pub open spec fn is_parent(directory: Seq<char>, path: Seq<char>) -> bool {
    exists|i: int| 0 <= i < path.len() && path[i] == '/' && directory == #[trigger] path.take(i)
}

/// The name that a path has directly below a prefix.
pub open spec fn child_name(path: Seq<char>, prefix: Seq<char>) -> Option<Seq<char>> {
    if prefix.is_prefix_of(path) && until(path.skip(prefix.len() as int), '/').len() > 0 {
        Some(until(path.skip(prefix.len() as int), '/'))
    } else {
        None
    }
}

/// A root with a name below it.
pub open spec fn joined(root: Seq<char>, name: Seq<char>) -> Seq<char> {
    root + seq!['/'] + name
}

/// Cuts a text at each occurrence of a separator.
pub fn split_text(text: &str, separator: char) -> (pieces: Vec<String>)
    ensures
        text::all(pieces@) == split(text@, separator),
        pieces@.len() > 0,
{
    let chars = chars_of(text);
    let mut pieces: Vec<String> = Vec::new();
    let mut current = String::new();
    let mut i: usize = 0;
    proof {
        assert(text::all(pieces@).push(current@) =~= seq![Seq::empty()]);
        assert(split(text@.take(0), separator) =~= seq![Seq::<char>::empty()]);
    }
    while i < chars.len()
        invariant
            i <= chars.len(),
            chars@ == text@,
            text::all(pieces@).push(current@) == split(text@.take(i as int), separator),
        decreases chars.len() - i,
    {
        let ghost seen = text@.take(i as int);
        let ghost next = text@.take(i + 1);
        let ghost pieces_before = pieces@;
        assert(next.drop_last() =~= seen);
        assert(next.last() == chars@[i as int]);
        assert(split(seen, separator).drop_last() =~= text::all(pieces@));
        if chars[i] == separator {
            pieces.push(current);
            current = String::new();
            assert(text::all(pieces@) =~= split(seen, separator));
            assert(text::all(pieces@).push(current@) =~= split(next, separator));
        } else {
            push_char(&mut current, chars[i]);
            assert(text::all(pieces@).push(current@) =~= split(next, separator));
        }
        i += 1;
    }
    assert(text@.take(i as int) =~= text@);
    let ghost before = pieces@;
    let ghost last = current@;
    pieces.push(current);
    assert(text::all(pieces@) =~= text::all(before).push(last));
    pieces
}

/// The text before the first occurrence of a character.
fn text_until(text: &str, stop: char) -> (head: String)
    ensures
        head@ == until(text@, stop),
{
    let chars = chars_of(text);
    let mut head = String::new();
    let mut i: usize = 0;
    assert(text@.skip(0) =~= text@);
    while i < chars.len() && chars[i] != stop
        invariant
            i <= chars.len(),
            chars@ == text@,
            until(text@, stop) =~= head@ + until(text@.skip(i as int), stop),
        decreases chars.len() - i,
    {
        assert(text@.skip(i as int).skip(1) =~= text@.skip(i + 1));
        push_char(&mut head, chars[i]);
        i += 1;
    }
    assert(head@ =~= until(text@, stop));
    head
}

/// Whether a text starts with another.
pub fn starts_with(text: &str, prefix: &str) -> (result: bool)
    ensures
        result == prefix@.is_prefix_of(text@),
{
    let chars = chars_of(text);
    let head = chars_of(prefix);
    if head.len() > chars.len() {
        return false;
    }
    let mut i: usize = 0;
    while i < head.len()
        invariant
            i <= head.len() <= chars.len(),
            chars@ == text@,
            head@ == prefix@,
            forall|k: int| 0 <= k < i ==> chars@[k] == head@[k],
        decreases head.len() - i,
    {
        if chars[i] != head[i] {
            assert(text@.subrange(0, prefix@.len() as int)[i as int] != prefix@[i as int]);
            return false;
        }
        i += 1;
    }
    assert(text@.subrange(0, prefix@.len() as int) =~= prefix@);
    true
}

/// The rest of a text from a position on.
pub fn text_from(text: &str, start: usize) -> (rest: String)
    requires
        start <= text@.len(),
    ensures
        rest@ == text@.skip(start as int),
{
    let chars = chars_of(text);
    let rest = text.substring_char(start, chars.len()).to_owned();
    assert(rest@ =~= text@.skip(start as int));
    rest
}

/// The beginning of a text up to a position.
pub fn text_up_to(text: &str, end: usize) -> (head: String)
    requires
        end <= text@.len(),
    ensures
        head@ == text@.take(end as int),
{
    let head = text.substring_char(0, end).to_owned();
    assert(head@ =~= text@.take(end as int));
    head
}

/// Whether a character occurs in a text.
pub fn contains_char(text: &str, wanted: char) -> (found: bool)
    ensures
        found == text@.contains(wanted),
{
    let chars = chars_of(text);
    let mut i: usize = 0;
    while i < chars.len()
        invariant
            i <= chars.len(),
            chars@ == text@,
            forall|k: int| 0 <= k < i ==> text@[k] != wanted,
        decreases chars.len() - i,
    {
        if chars[i] == wanted {
            return true;
        }
        i += 1;
    }
    false
}

/// Whether a text is a usable path component.
pub fn check_component(component: &str) -> (result: bool)
    ensures
        result == is_component(component@),
{
    let chars = chars_of(component);
    if chars.len() == 0 {
        return false;
    }
    let dot = chars.len() == 1 && chars[0] == '.';
    let dot_dot = chars.len() == 2 && chars[0] == '.' && chars[1] == '.';
    proof {
        assert(dot == (component@ =~= seq!['.']));
        assert(dot_dot == (component@ =~= seq!['.', '.']));
    }
    !dot && !dot_dot
}

/// Whether every component of a path is usable.
pub fn check_components(path: &str) -> (result: bool)
    ensures
        result == (forall|i: int|
            0 <= i < split(path@, '/').len() ==> is_component(#[trigger] split(path@, '/')[i])),
{
    let components = split_text(path, '/');
    let mut i: usize = 0;
    while i < components.len()
        invariant
            i <= components.len(),
            text::all(components@) == split(path@, '/'),
            forall|k: int| 0 <= k < i ==> is_component(#[trigger] split(path@, '/')[k]),
        decreases components.len() - i,
    {
        assert(split(path@, '/')[i as int] == components@[i as int]@);
        if !check_component(components[i].as_str()) {
            return false;
        }
        i += 1;
    }
    true
}

/// Accepts a normalized relative path and refuses any other text.
pub fn validate_path(path: &str) -> (result: Result<(), RpcError>)
    ensures
        rpc_error::outcome(result) == (if is_normalized(path@) {
            Ok(())
        } else {
            Err(
                rpc_error::invalid_params(
                    "remote_path must be a normalized relative logical path"@,
                ),
            )
        }),
{
    if !contains_char(path, '\\') && check_components(path) {
        Ok(())
    } else {
        Err(RpcError::invalid_params("remote_path must be a normalized relative logical path"))
    }
}

/// The name that a path has directly below a prefix, if any.
pub fn immediate_child(path: &str, prefix: &str) -> (name: Option<String>)
    ensures
        text::optional(name) == child_name(path@, prefix@),
{
    if !starts_with(path, prefix) {
        return None;
    }
    let length: usize = chars_of(prefix).len();
    let suffix = text_from(path, length);
    let name = text_until(suffix.as_str(), '/');
    if name.as_str().is_empty() {
        None
    } else {
        Some(name)
    }
}

/// Puts a name below a root.
pub fn join(root: &str, name: &str) -> (path: String)
    ensures
        path@ == joined(root@, name@),
{
    let mut path = root.to_owned();
    push_char(&mut path, '/');
    path.append(name);
    assert(path@ =~= joined(root@, name@));
    path
}

/// A normalized path is not empty and does not start with a separator.
pub proof fn normalized_is_relative(path: Seq<char>)
    requires
        is_normalized(path),
    ensures
        path.len() > 0,
        path[0] != '/',
        path.last() != '/',
{
    let pieces = split(path, '/');
    if path.len() == 0 {
        assert(pieces[0].len() == 0);
    } else {
        split_first(path, '/');
        split_nonempty(path.drop_last(), '/');
        assert(pieces[0].len() > 0);
        if path.last() == '/' {
            assert(pieces[pieces.len() - 1].len() == 0);
        }
    }
}

/// A split has at least one piece.
pub proof fn split_nonempty(text: Seq<char>, separator: char)
    ensures
        split(text, separator).len() > 0,
    decreases text.len(),
{
    if text.len() > 0 {
        split_nonempty(text.drop_last(), separator);
    }
}

/// The first piece is what stands before the first separator.
pub proof fn split_first(text: Seq<char>, separator: char)
    ensures
        split(text, separator).len() > 0,
        split(text, separator)[0] == until(text, separator),
    decreases text.len(),
{
    if text.len() > 0 {
        let head = text.drop_last();
        split_first(head, separator);
        until_push(head, text.last(), separator);
        assert(text =~= head.push(text.last()));
        split_single(head, separator);
    } else {
        assert(split(text, separator)[0] =~= until(text, separator));
    }
}

/// Without a separator the only piece is the whole text.
proof fn split_single(text: Seq<char>, separator: char)
    ensures
        split(text, separator).len() > 0,
        split(text, separator).len() == 1 <==> !text.contains(separator),
        split(text, separator).len() == 1 ==> split(text, separator)[0] == text,
    decreases text.len(),
{
    if text.len() > 0 {
        let head = text.drop_last();
        split_single(head, separator);
        if text.last() == separator {
            assert(text.contains(separator));
        } else {
            if head.contains(separator) {
                let i = choose|i: int| 0 <= i < head.len() && head[i] == separator;
                assert(text[i] == separator);
            }
            if text.contains(separator) {
                let i = choose|i: int| 0 <= i < text.len() && text[i] == separator;
                assert(head[i] == separator);
            }
            if split(text, separator).len() == 1 {
                assert(split(text, separator)[0] =~= text);
            }
        }
    } else {
        assert(split(text, separator)[0] =~= text);
    }
}

proof fn until_push(text: Seq<char>, last: char, stop: char)
    ensures
        until(text.push(last), stop) == (if text.contains(stop) || last == stop {
            until(text, stop)
        } else {
            text.push(last)
        }),
        !text.contains(stop) ==> until(text, stop) == text,
    decreases text.len(),
{
    let all = text.push(last);
    if text.len() == 0 {
        assert(all.skip(1) =~= Seq::<char>::empty());
        assert(until(all.skip(1), stop) =~= Seq::<char>::empty());
        assert(last != stop ==> until(all, stop) =~= seq![last]);
        assert(text.push(last) =~= seq![last]);
        assert(until(text, stop) =~= text);
    } else if text[0] == stop {
        assert(text.contains(stop));
    } else {
        let rest = text.skip(1);
        until_push(rest, last, stop);
        assert(all.skip(1) =~= rest.push(last));
        if text.contains(stop) {
            let i = choose|i: int| 0 <= i < text.len() && text[i] == stop;
            assert(rest[i - 1] == stop);
        }
        if rest.contains(stop) {
            let i = choose|i: int| 0 <= i < rest.len() && rest[i] == stop;
            assert(text[i + 1] == stop);
        }
        assert(until(text, stop) == seq![text[0]] + until(rest, stop));
        assert(until(all, stop) == seq![text[0]] + until(rest.push(last), stop));
        if !text.contains(stop) {
            assert(until(text, stop) =~= text);
            if last != stop {
                assert(until(all, stop) =~= all);
            } else {
                assert(until(all, stop) =~= until(text, stop));
            }
        }
    }
}

/// A separator begins a new piece.
pub proof fn split_append(text: Seq<char>, piece: Seq<char>, separator: char)
    requires
        !piece.contains(separator),
    ensures
        split(text + seq![separator] + piece, separator) == split(text, separator).push(piece),
    decreases piece.len(),
{
    let whole = text + seq![separator] + piece;
    if piece.len() == 0 {
        assert(whole.drop_last() =~= text);
        assert(whole.last() == separator);
        assert(piece =~= Seq::empty());
    } else {
        let shorter = piece.drop_last();
        assert(!shorter.contains(separator)) by {
            if shorter.contains(separator) {
                let i = choose|i: int| 0 <= i < shorter.len() && shorter[i] == separator;
                assert(piece[i] == separator);
            }
        }
        split_append(text, shorter, separator);
        assert(whole.drop_last() =~= text + seq![separator] + shorter);
        assert(whole.last() == piece.last());
        assert(piece.last() != separator) by {
            assert(piece[piece.len() - 1] == piece.last());
        }
        let pieces = split(text, separator).push(shorter);
        assert(pieces.drop_last() =~= split(text, separator));
        assert(pieces.last().push(piece.last()) =~= piece);
    }
}

/// Pieces that were joined with a separator come apart again at it.
pub proof fn joined_pieces_split_back(pieces: Seq<Seq<char>>, separator: char)
    requires
        pieces.len() > 0,
        forall|i: int| 0 <= i < pieces.len() ==> !(#[trigger] pieces[i]).contains(separator),
    ensures
        split(text::joined(pieces, seq![separator]), separator) == pieces,
    decreases pieces.len(),
{
    if pieces.len() == 1 {
        split_single(pieces[0], separator);
        assert(seq![pieces[0]] =~= pieces);
    } else {
        let fewer = pieces.drop_last();
        assert forall|i: int| 0 <= i < fewer.len() implies !(#[trigger] fewer[i]).contains(
            separator,
        ) by {
            assert(fewer[i] == pieces[i]);
        }
        joined_pieces_split_back(fewer, separator);
        assert(pieces.last() == pieces[pieces.len() - 1]);
        split_append(text::joined(fewer, seq![separator]), pieces.last(), separator);
        assert(fewer.push(pieces.last()) =~= pieces);
    }
}

} // verus!
