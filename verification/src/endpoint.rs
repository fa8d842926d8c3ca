//! Where the server of the current user is met.

use crate::cli::host_path;
use crate::cli::host_path::join_host_path;
use crate::text::{chars_of, concat, push_char};
use vstd::prelude::*;

verus! {

/// The longest name of a user in an endpoint.
pub const MAX_ENDPOINT_COMPONENT: usize = 64;

/// Whether a character can stand in an endpoint on every host.
pub open spec fn is_portable(c: char) -> bool {
    'a' <= c <= 'z' || 'A' <= c <= 'Z' || '0' <= c <= '9' || c == '-' || c == '_'
}

/// The portable characters of a text, in order.
pub open spec fn portable(value: Seq<char>) -> Seq<char> {
    value.filter(|c: char| is_portable(c))
}

/// The name of a user in an endpoint: its first portable characters, or a stand-in
/// where it has none.
pub open spec fn endpoint_component(value: Seq<char>) -> Seq<char> {
    let kept = portable(value);
    if kept.len() == 0 {
        "user"@
    } else if kept.len() > MAX_ENDPOINT_COMPONENT {
        kept.take(MAX_ENDPOINT_COMPONENT as int)
    } else {
        kept
    }
}

/// The name of a user in an endpoint.
pub fn sanitize_endpoint_component(value: &str) -> (component: String)
    ensures
        component@ == endpoint_component(value@),
{
    let chars = chars_of(value);
    let mut component = String::new();
    let mut kept: usize = 0;
    let mut i: usize = 0;
    let ghost all = portable(value@);
    proof {
        assert(chars@.take(0) =~= Seq::<char>::empty());
        reveal(Seq::filter);
        assert(component@ =~= portable(chars@.take(0)));
    }
    while i < chars.len() && kept < MAX_ENDPOINT_COMPONENT
        invariant
            chars@ == value@,
            i <= chars@.len(),
            kept <= MAX_ENDPOINT_COMPONENT,
            kept == component@.len(),
            component@ == portable(chars@.take(i as int)),
        decreases chars@.len() - i,
    {
        let c = chars[i];
        proof {
            reveal(Seq::filter);
            assert(chars@.take(i + 1).drop_last() =~= chars@.take(i as int));
            assert(chars@.take(i + 1).last() == c);
        }
        if ('a' <= c && c <= 'z') || ('A' <= c && c <= 'Z') || ('0' <= c && c <= '9') || c == '-'
            || c == '_' {
            push_char(&mut component, c);
            kept += 1;
        }
        i += 1;
    }
    proof {
        let seen = chars@.take(i as int);
        let rest = chars@.skip(i as int);
        assert(chars@ =~= seen + rest);
        Seq::filter_distributes_over_add(seen, rest, |c: char| is_portable(c));
        assert(all == portable(seen) + portable(rest));
        if kept == MAX_ENDPOINT_COMPONENT {
            assert(all.take(MAX_ENDPOINT_COMPONENT as int) =~= component@);
        } else {
            assert(rest =~= Seq::<char>::empty());
            reveal(Seq::filter);
            assert(portable(rest) =~= Seq::<char>::empty());
            assert(all =~= component@);
        }
    }
    if kept == 0 {
        "user".to_owned()
    } else {
        component
    }
}

/// The endpoint of a user on a host that names endpoints.
pub fn namespaced_endpoint(user: &str) -> (endpoint: String)
    ensures
        endpoint@ == "kindlebridge-"@ + endpoint_component(user@),
{
    concat("kindlebridge-", sanitize_endpoint_component(user).as_str())
}

/// The endpoint of a user below a directory, on a host whose endpoints are files.
pub fn filesystem_endpoint(base: &str, user: &str, separator: char) -> (endpoint: String)
    ensures
        endpoint@ == host_path::host_joined(
            base@,
            "kindlebridge-"@ + endpoint_component(user@) + ".sock"@,
            separator,
        ),
{
    let mut name = namespaced_endpoint(user);
    name.append(".sock");
    join_host_path(base, name.as_str(), separator)
}

/// Whatever a user is called, the name in the endpoint is not empty, not too long
/// and made of portable characters.
pub proof fn endpoint_components_are_portable(value: Seq<char>)
    ensures
        0 < endpoint_component(value).len() <= MAX_ENDPOINT_COMPONENT,
        forall|i: int|
            0 <= i < endpoint_component(value).len() ==> is_portable(
                #[trigger] endpoint_component(value)[i],
            ),
{
    reveal_strlit("user");
    let kept = portable(value);
    assert forall|i: int| 0 <= i < kept.len() implies is_portable(#[trigger] kept[i]) by {
        value.lemma_filter_pred(|c: char| is_portable(c), i);
    }
}

/// A name of portable characters that is not too long is kept as it is, so that users
/// with different such names have different endpoints.
pub proof fn portable_users_are_kept_apart(left: Seq<char>, right: Seq<char>)
    requires
        0 < left.len() <= MAX_ENDPOINT_COMPONENT,
        0 < right.len() <= MAX_ENDPOINT_COMPONENT,
        forall|i: int| 0 <= i < left.len() ==> is_portable(#[trigger] left[i]),
        forall|i: int| 0 <= i < right.len() ==> is_portable(#[trigger] right[i]),
    ensures
        endpoint_component(left) == left,
        endpoint_component(left) == endpoint_component(right) ==> left == right,
{
    portable_is_kept(left);
    portable_is_kept(right);
}

proof fn portable_is_kept(value: Seq<char>)
    requires
        forall|i: int| 0 <= i < value.len() ==> is_portable(#[trigger] value[i]),
    ensures
        portable(value) == value,
    decreases value.len(),
{
    reveal(Seq::filter);
    if value.len() > 0 {
        portable_is_kept(value.drop_last());
        assert(is_portable(value[value.len() - 1]));
        assert(value =~= value.drop_last().push(value.last()));
    } else {
        assert(portable(value) =~= value);
    }
}

} // verus!
