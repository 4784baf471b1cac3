//! The decisions of the update check: which install command to suggest,
//! whether a newer release is worth announcing, and the layout of the notice.
//! The check itself runs in the background of the command-line program.
use vstd::prelude::*;

use crate::text::same_text;

verus! {

pub open spec fn install_command_windows() -> Seq<char> {
    "irm https://raw.githubusercontent.com/JosaaXc/sprout/main/install.ps1 | iex"@
}

pub open spec fn install_command_unix() -> Seq<char> {
    "curl -fsSL https://raw.githubusercontent.com/JosaaXc/sprout/main/install.sh | sh"@
}

/// The one-line installer for the target operating system (as
/// `std::env::consts::OS` names it): PowerShell on `windows`, the shell script
/// elsewhere.
pub fn install_command(target_os: &str) -> (r: &'static str)
    ensures
        r@ == if target_os@ == "windows"@ {
            install_command_windows()
        } else {
            install_command_unix()
        },
{
    if same_text(target_os, "windows") {
        "irm https://raw.githubusercontent.com/JosaaXc/sprout/main/install.ps1 | iex"
    } else {
        "curl -fsSL https://raw.githubusercontent.com/JosaaXc/sprout/main/install.sh | sh"
    }
}

/// The version without a leading `v`.
pub open spec fn spec_strip_v_prefix(v: Seq<char>) -> Seq<char> {
    if v.len() > 0 && v[0] == 'v' {
        v.subrange(1, v.len() as int)
    } else {
        v
    }
}

pub fn strip_v_prefix(v: &str) -> (r: &str)
    ensures
        r@ == spec_strip_v_prefix(v@),
{
    let n = v.unicode_len();
    if n > 0 && v.get_char(0) == 'v' {
        v.substring_char(1, n)
    } else {
        v
    }
}

/// A release was found and it is not the running version.
pub fn announces_update(latest: Option<&str>, current_version: &str) -> (r: bool)
    ensures
        r == match latest {
            Some(v) => v@ != current_version@,
            None => false,
        },
{
    match latest {
        Some(v) => !same_text(v, current_version),
        None => false,
    }
}

/// The layout of the boxed notice: the width inside the border, and the
/// padding after each line so that every line reaches the right border.
pub struct BoxLayout {
    pub inner: usize,
    pub trailing: Vec<usize>,
}

/// The largest width of the first `n` lines.
pub open spec fn max_width(widths: Seq<usize>, n: int) -> int
    decreases n,
{
    if n <= 0 {
        0
    } else {
        let m = max_width(widths, n - 1);
        if widths[n - 1] > m {
            widths[n - 1] as int
        } else {
            m
        }
    }
}

pub proof fn lemma_max_width(widths: Seq<usize>, n: int)
    requires
        0 <= n <= widths.len(),
    ensures
        forall|i: int| 0 <= i < n ==> widths[i] <= max_width(widths, n),
        n > 0 ==> exists|i: int| 0 <= i < n && widths[i] == max_width(widths, n),
        0 <= max_width(widths, n),
    decreases n,
{
    if n > 0 {
        lemma_max_width(widths, n - 1);
        if n - 1 > 0 && widths[n - 1] <= max_width(widths, n - 1) {
            let i = choose|i: int| 0 <= i < n - 1 && widths[i] == max_width(widths, n - 1);
            assert(widths[i] == max_width(widths, n));
        }
    }
}

/// Two columns of padding on each side: the inside is the widest line plus
/// four, and a line of width `w` is followed by `widest - w + 2` spaces.
pub fn update_box_layout(widths: &Vec<usize>) -> (r: BoxLayout)
    requires
        widths@.len() > 0,
        max_width(widths@, widths@.len() as int) + 4 <= usize::MAX,
    ensures
        r.inner == max_width(widths@, widths@.len() as int) + 4,
        r.trailing@.len() == widths@.len(),
        forall|i: int|
            0 <= i < widths@.len() ==> r.trailing@[i] == max_width(widths@, widths@.len() as int)
                - widths@[i] + 2,
{
    let mut max_w: usize = 0;
    let mut i: usize = 0;
    while i < widths.len()
        invariant
            i <= widths@.len(),
            max_w == max_width(widths@, i as int),
        decreases widths@.len() - i,
    {
        if widths[i] > max_w {
            max_w = widths[i];
        }
        i = i + 1;
    }
    proof {
        lemma_max_width(widths@, widths@.len() as int);
    }
    let mut trailing: Vec<usize> = Vec::new();
    let mut j: usize = 0;
    while j < widths.len()
        invariant
            j <= widths@.len(),
            max_w == max_width(widths@, widths@.len() as int),
            max_w + 4 <= usize::MAX,
            forall|k: int| 0 <= k < widths@.len() ==> widths@[k] <= max_w,
            trailing@.len() == j,
            forall|k: int| 0 <= k < j ==> trailing@[k] == max_w - widths@[k] + 2,
        decreases widths@.len() - j,
    {
        trailing.push(max_w - widths[j] + 2);
        j = j + 1;
    }
    BoxLayout { inner: max_w + 4, trailing }
}

/// Law: stripping removes at most one leading `v`: the result is the version
/// itself, or the version is `v` followed by the result.
pub proof fn law_strip_v_prefix(v: Seq<char>)
    ensures
        spec_strip_v_prefix(v) == v || seq!['v'] + spec_strip_v_prefix(v) == v,
        spec_strip_v_prefix(v).len() == 0 || spec_strip_v_prefix(v)[0] != 'v' || v.len() > 1
            && v[0] == 'v',
{
    if v.len() > 0 && v[0] == 'v' {
        assert(seq!['v'] + spec_strip_v_prefix(v) =~= v);
    }
}

/// `std::sync::mpsc::Receiver`, on which the background check delivers the
/// latest release it found (`None` when it found none or failed).
#[verifier::external_type_specification]
#[verifier::external_body]
#[verifier::reject_recursive_types(T)]
pub struct ExReceiver<T>(std::sync::mpsc::Receiver<T>);

/// Calls `std::sync::mpsc::Receiver::recv_timeout` with a timeout of `millis`
/// milliseconds: `Some` of what arrived in time, `None` when nothing did or the
/// sender is gone. Whether anything arrives, and what, is left open.
#[verifier::external_body]
fn receive_within(receiver: &std::sync::mpsc::Receiver<Option<String>>, millis: u64) -> (r: Option<
    Option<String>,
>) {
    match receiver.recv_timeout(std::time::Duration::from_millis(millis)) {
        Ok(latest) => Some(latest),
        Err(_) => None,
    }
}

/// How long the end of a command waits for the background check.
pub const FINALIZE_TIMEOUT_MILLIS: u64 = 500;

/// The update check running in the background of a command: no receiver when
/// the check is disabled.
pub struct UpdateProbe {
    pub receiver: Option<std::sync::mpsc::Receiver<Option<String>>>,
}

/// The release to announce, given what the background check delivered in
/// time (`None` when nothing did): the release it found, unless it is the
/// running version.
pub fn release_to_announce(received: Option<Option<String>>, current_version: &str) -> (r: Option<
    String,
>)
    ensures
        match received {
            Some(Some(v)) => if v@ != current_version@ {
                r matches Some(a) && a@ == v@
            } else {
                r is None
            },
            _ => r is None,
        },
{
    match received {
        Some(latest) => {
            let announce = match &latest {
                Some(v) => announces_update(Some(v.as_str()), current_version),
                None => false,
            };
            if announce {
                latest
            } else {
                None
            }
        },
        None => None,
    }
}

impl UpdateProbe {
    /// The release to announce when the command ends: the one the background
    /// check delivered within the timeout, when it is not the running version.
    /// Nothing when the check is disabled.
    pub fn finalize(self, current_version: &str) -> (r: Option<String>)
        ensures
            self.receiver is None ==> r is None,
            r matches Some(v) ==> v@ != current_version@,
    {
        match self.receiver {
            None => None,
            Some(rx) => release_to_announce(
                receive_within(&rx, FINALIZE_TIMEOUT_MILLIS),
                current_version,
            ),
        }
    }
}

} // verus!
