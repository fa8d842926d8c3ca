//! Device paths below the sync root.

use crate::cli::error::{CliError, CliErrorView};
use crate::codec;
use crate::path;
use crate::path::{check_components, starts_with, text_from};
use crate::text::{chars_of, push_char};
use vstd::prelude::*;

verus! {

/// The directory on the device that transfers go to and come from.
pub const DEVICE_SYNC_ROOT: &'static str = "/mnt/us/kindlebridge-data";

/// The longest path, in bytes.
pub const MAX_PATH_BYTES: usize = 1024;

/// Why a text is no path below the sync root, if it is none.
pub open spec fn refusal(path: Seq<char>) -> Option<Seq<char>> {
    if !(forall|i: int|
        0 <= i < path::split(path, '/').len() ==> path::is_component(
            #[trigger] path::split(path, '/')[i],
        )) {
        Some("path contains an empty, dot, or dot-dot component"@)
    } else if vstd::utf8::encode_utf8(path).len() > MAX_PATH_BYTES {
        Some("path exceeds 1024 UTF-8 bytes"@)
    } else {
        None
    }
}

/// A path below the sync root: relative, without empty, dot or dot-dot
/// components, and not too long.
#[derive(Debug)]
pub struct LogicalSyncPath {
    path: String,
}

impl View for LogicalSyncPath {
    type V = Seq<char>;

    closed spec fn view(&self) -> Seq<char> {
        self.path@
    }
}

/// Text with its upper-case ASCII letters in lower case. Two paths with the same
/// fold cannot be told apart on the device.
pub open spec fn fold(path: Seq<char>) -> Seq<char> {
    path.map_values(|c: char| codec::ascii_lower(c))
}

impl LogicalSyncPath {
    /// The path is acceptable.
    pub closed spec fn wf(&self) -> bool {
        refusal(self.path@) is None
    }

    /// What every such path is.
    pub proof fn is_acceptable(&self)
        requires
            self.wf(),
        ensures
            refusal(self@) is None,
    {
    }

    /// Takes a text as a path, or says why it is none.
    pub fn parse(path: String) -> (result: Result<Self, String>)
        ensures
            match result {
                Ok(parsed) => refusal(path@) is None && parsed.wf() && parsed@ == path@,
                Err(reason) => refusal(path@) == Some(reason@),
            },
    {
        if !check_components(path.as_str()) {
            return Err("path contains an empty, dot, or dot-dot component".to_owned());
        }
        if path.as_str().as_bytes().len() > MAX_PATH_BYTES {
            return Err("path exceeds 1024 UTF-8 bytes".to_owned());
        }
        Ok(LogicalSyncPath { path })
    }

    /// The text of the path.
    pub fn as_str(&self) -> (path: &str)
        ensures
            path@ == self@,
    {
        self.path.as_str()
    }

    /// The same path.
    pub fn duplicate(&self) -> (copy: Self)
        requires
            self.wf(),
        ensures
            copy.wf(),
            copy@ == self@,
    {
        LogicalSyncPath { path: self.path.clone() }
    }

    /// The path in the form that decides whether the device can tell it from
    /// others.
    pub fn ascii_case_fold_key(&self) -> (key: String)
        ensures
            key@ == fold(self@),
    {
        let chars = chars_of(self.path.as_str());
        let mut key = String::new();
        let mut i: usize = 0;
        while i < chars.len()
            invariant
                i <= chars.len(),
                chars@ == self@,
                key@ =~= fold(self@.take(i as int)),
            decreases chars.len() - i,
        {
            let c = chars[i];
            let folded = if 'A' <= c && c <= 'Z' {
                ((c as u8) + 32u8) as char
            } else {
                c
            };
            assert(folded == codec::ascii_lower(c));
            push_char(&mut key, folded);
            i += 1;
        }
        assert(self@.take(i as int) =~= self@);
        key
    }
}

/// Text with slashes in place of backslashes.
pub open spec fn with_slashes(text: Seq<char>) -> Seq<char> {
    text.map_values(
        |c: char|
            if c == '\\' {
                '/'
            } else {
                c
            },
    )
}

/// The part of a path below the sync root; another path as it is.
pub open spec fn below_root(path: Seq<char>) -> Seq<char> {
    let root = DEVICE_SYNC_ROOT@ + seq!['/'];
    if root.is_prefix_of(path) && path.len() > root.len() {
        path.skip(root.len() as int)
    } else {
        path
    }
}

/// The device path that the user means, or why it is none.
pub open spec fn normalized(input: Seq<char>) -> Result<Seq<char>, Seq<char>> {
    let logical = below_root(with_slashes(input));
    if logical.len() > 0 && logical[0] == '/' {
        Err("absolute paths must be below /mnt/us/kindlebridge-data"@)
    } else {
        match refusal(logical) {
            None => Ok(logical),
            Some(reason) => Err(reason),
        }
    }
}

fn replace_backslashes(text: &str) -> (replaced: String)
    ensures
        replaced@ == with_slashes(text@),
{
    let chars = chars_of(text);
    let mut replaced = String::new();
    let mut i: usize = 0;
    while i < chars.len()
        invariant
            i <= chars.len(),
            chars@ == text@,
            replaced@ =~= with_slashes(text@.take(i as int)),
        decreases chars.len() - i,
    {
        let c = if chars[i] == '\\' {
            '/'
        } else {
            chars[i]
        };
        push_char(&mut replaced, c);
        i += 1;
    }
    assert(text@.take(i as int) =~= text@);
    replaced
}

/// Takes a device path as the user writes it: with slashes or backslashes,
/// relative or below the sync root.
pub fn normalize_remote_path(input: &str) -> (result: Result<LogicalSyncPath, CliError>)
    ensures
        match result {
            Ok(parsed) => parsed.wf() && normalized(input@) == Ok::<_, Seq<char>>(parsed@),
            Err(error) => normalized(input@) matches Err(reason) && error@
                == (CliErrorView::InvalidRemotePath { path: input@, reason }),
        },
{
    let path = replace_backslashes(input);
    let mut root = DEVICE_SYNC_ROOT.to_owned();
    push_char(&mut root, '/');
    assert(root@ =~= DEVICE_SYNC_ROOT@ + seq!['/']);
    let root_length: usize = chars_of(root.as_str()).len();
    let path_length: usize = chars_of(path.as_str()).len();
    let logical = if starts_with(path.as_str(), root.as_str()) && path_length > root_length {
        text_from(path.as_str(), root_length)
    } else {
        path
    };
    let chars = chars_of(logical.as_str());
    if chars.len() > 0 && chars[0] == '/' {
        return Err(
            CliError::InvalidRemotePath {
                path: input.to_owned(),
                reason: "absolute paths must be below /mnt/us/kindlebridge-data".to_owned(),
            },
        );
    }
    match LogicalSyncPath::parse(logical) {
        Ok(parsed) => Ok(parsed),
        Err(reason) => Err(CliError::InvalidRemotePath { path: input.to_owned(), reason }),
    }
}

/// A device path that was accepted is relative, and each of its components names
/// something below its parent: nothing outside the sync root can be reached.
pub proof fn accepted_paths_stay_below_the_root(input: Seq<char>)
    requires
        normalized(input) is Ok,
    ensures
        ({
            let accepted = normalized(input)->Ok_0;
            &&& accepted.len() > 0
            &&& accepted[0] != '/'
            &&& forall|i: int|
                0 <= i < path::split(accepted, '/').len() ==> path::is_component(
                    #[trigger] path::split(accepted, '/')[i],
                )
            &&& path::is_normalized(accepted)
        }),
{
    let accepted = normalized(input)->Ok_0;
    let slashed = with_slashes(input);
    assert(!slashed.contains('\\'));
    assert(!accepted.contains('\\')) by {
        if accepted.contains('\\') {
            let i = choose|i: int| 0 <= i < accepted.len() && accepted[i] == '\\';
            let offset = slashed.len() - accepted.len();
            assert(slashed[offset + i] == '\\');
        }
    }
    path::normalized_is_relative(accepted);
}

/// Normalizing an accepted path again changes nothing.
pub proof fn normalizing_is_idempotent(input: Seq<char>)
    requires
        normalized(input) is Ok,
    ensures
        normalized(normalized(input)->Ok_0) == normalized(input),
{
    let accepted = normalized(input)->Ok_0;
    accepted_paths_stay_below_the_root(input);
    assert(with_slashes(accepted) =~= accepted) by {
        assert forall|i: int| 0 <= i < accepted.len() implies accepted[i] != '\\' by {
            assert(accepted.contains(accepted[i]));
        }
    }
    let root = DEVICE_SYNC_ROOT@ + seq!['/'];
    reveal_strlit("/mnt/us/kindlebridge-data");
    assert(root[0] == '/');
    if root.is_prefix_of(accepted) {
        assert(accepted[0] == root[0]);
    }
}

/// The user can name a device path in any of its forms, and means the same: with slashes or
/// with backslashes, and relative or as it stands on the device. An acceptable relative path
/// is taken as it is.
pub proof fn device_paths_are_taken_as_meant(path: Seq<char>)
    requires
        refusal(path) is None,
        !path.contains('\\'),
        path[0] != '/',
        path.len() > 0,
    ensures
        normalized(path) == Ok::<_, Seq<char>>(path),
        normalized("/mnt/us/kindlebridge-data/"@ + path) == Ok::<_, Seq<char>>(path),
        forall|written: Seq<char>| #[trigger] with_slashes(written) == path ==> normalized(written)
            == Ok::<_, Seq<char>>(path),
{
    reveal_strlit("/mnt/us/kindlebridge-data");
    reveal_strlit("/mnt/us/kindlebridge-data/");
    let root = DEVICE_SYNC_ROOT@ + seq!['/'];
    assert(root =~= "/mnt/us/kindlebridge-data/"@);
    assert(with_slashes(path) =~= path) by {
        assert forall|i: int| 0 <= i < path.len() implies path[i] != '\\' by {
            assert(path.contains(path[i]));
        }
    }
    assert(!root.is_prefix_of(path)) by {
        if root.is_prefix_of(path) {
            assert(path[0] == root[0]);
        }
    }
    let full = "/mnt/us/kindlebridge-data/"@ + path;
    assert(with_slashes(full) =~= full) by {
        assert forall|i: int| 0 <= i < full.len() implies full[i] != '\\' by {
            if i >= root.len() {
                assert(full[i] == path[i - root.len()]);
                assert(path.contains(path[i - root.len()]));
            }
        }
    }
    assert(root.is_prefix_of(full));
    assert(full.skip(root.len() as int) =~= path);
}

/// Nothing that leads out of the sync root is accepted: not a path with a dot-dot component,
/// and not an absolute path elsewhere.
pub proof fn paths_out_of_the_root_are_refused(input: Seq<char>)
    requires
        (exists|i: int|
            0 <= i < path::split(with_slashes(input), '/').len() && #[trigger] path::split(
                with_slashes(input),
                '/',
            )[i] == seq!['.', '.']) && input.len() > 0 && input[0] != '/' && input[0] != '\\' || (
        input.len() > 0 && (input[0] == '/' || input[0] == '\\') && !(DEVICE_SYNC_ROOT@ + seq![
            '/',
        ]).is_prefix_of(with_slashes(input))),
    ensures
        normalized(input) is Err,
{
    reveal_strlit("/mnt/us/kindlebridge-data");
    let slashed = with_slashes(input);
    let root = DEVICE_SYNC_ROOT@ + seq!['/'];
    assert(root[0] == '/');
    if input[0] != '/' && input[0] != '\\' {
        assert(slashed[0] == input[0]);
        assert(!root.is_prefix_of(slashed)) by {
            if root.is_prefix_of(slashed) {
                assert(slashed[0] == root[0]);
            }
        }
        let i = choose|i: int|
            0 <= i < path::split(slashed, '/').len() && #[trigger] path::split(slashed, '/')[i]
                == seq!['.', '.'];
        assert(!path::is_component(path::split(slashed, '/')[i]));
    } else {
        assert(slashed[0] == '/');
    }
}

} // verus!
