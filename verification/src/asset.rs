//! Asset selection: derive the installation bookkeeping tag from a release
//! string, and pick the per-OS download asset from a fixed table. A release
//! string that does not match the expected shape is a hard error here,
//! unlike version detection.

use vstd::prelude::*;
use vstd::string::StrSliceExecFns;
use vstd::string::StringExecFns;
use crate::Os;
use crate::error::ResolveError;
use crate::version::run_end;

verus! {

/// End of the release-shape match starting exactly at `i`: digits, dot,
/// digits, dot, digits, plus, digits, each run maximal and non-empty.
/// Some((major_end, total_end)) — the major component is `s[i..major_end]`.
pub open spec fn jdk_end(s: Seq<char>, i: int) -> Option<(int, int)> {
    let a = run_end(s, i);
    if a == i || a >= s.len() || s[a] != '.' {
        None
    } else {
        let b = run_end(s, a + 1);
        if b == a + 1 || b >= s.len() || s[b] != '.' {
            None
        } else {
            let c = run_end(s, b + 1);
            if c == b + 1 || c >= s.len() || s[c] != '+' {
                None
            } else {
                let d = run_end(s, c + 1);
                if d == c + 1 {
                    None
                } else {
                    Some((a, d))
                }
            }
        }
    }
}

pub open spec fn has_jdk_at(s: Seq<char>, i: int) -> bool {
    jdk_end(s, i) is Some
}

/// Start of the leftmost release-shape match at or after `i`.
pub open spec fn first_jdk_from(s: Seq<char>, i: int) -> Option<int>
    decreases s.len() - i,
{
    if i >= s.len() {
        None
    } else if has_jdk_at(s, i) {
        Some(i)
    } else {
        first_jdk_from(s, i + 1)
    }
}

/// The installation bookkeeping tag a release string yields:
/// `OpenJDK<MAJOR>U`, where `<MAJOR>` is the first digit run of the
/// leftmost release-shape match; None when the string has no such match.
pub open spec fn spec_major_tag(s: Seq<char>) -> Option<Seq<char>> {
    match first_jdk_from(s, 0) {
        Some(k) => Some("OpenJDK"@ + s.subrange(k, (jdk_end(s, k)->0).0) + "U"@),
        None => None,
    }
}

fn jdk_end_at(s: &str, i: usize) -> (r: Option<(usize, usize)>)
    requires
        i <= s@.len(),
    ensures
        match r {
            Some(ad) => jdk_end(s@, i as int) == Some((ad.0 as int, ad.1 as int)) && i < ad.0
                < ad.1 <= s@.len(),
            None => jdk_end(s@, i as int) is None,
        },
{
    let n: usize = s.unicode_len();
    let a: usize = crate::version::digit_run_end(s, i);
    if a == i || a == n {
        return None;
    }
    if s.get_char(a) != '.' {
        return None;
    }
    let b: usize = crate::version::digit_run_end(s, a + 1);
    if b == a + 1 || b == n {
        return None;
    }
    if s.get_char(b) != '.' {
        return None;
    }
    let c: usize = crate::version::digit_run_end(s, b + 1);
    if c == b + 1 || c == n {
        return None;
    }
    if s.get_char(c) != '+' {
        return None;
    }
    let d: usize = crate::version::digit_run_end(s, c + 1);
    if d == c + 1 {
        return None;
    }
    Some((a, d))
}

fn find_jdk_from(s: &str) -> (r: Option<(usize, usize)>)
    ensures
        match r {
            Some(ka) => first_jdk_from(s@, 0) == Some(ka.0 as int) && (jdk_end(s@, ka.0 as int)
                is Some) && (jdk_end(s@, ka.0 as int)->0).0 == ka.1 as int && ka.0 < ka.1
                <= s@.len(),
            None => first_jdk_from(s@, 0) is None,
        },
{
    let n: usize = s.unicode_len();
    let mut k: usize = 0;
    while k < n
        invariant
            k <= n,
            n == s@.len(),
            first_jdk_from(s@, 0) == first_jdk_from(s@, k as int),
        decreases n - k,
    {
        match jdk_end_at(s, k) {
            Some((a, _d)) => {
                return Some((k, a));
            },
            None => {},
        }
        k = k + 1;
    }
    None
}

/// Extract the major-version tag from a release string: `21.0.2+13` yields
/// `OpenJDK21U`. A release string without the `MAJOR.MINOR.PATCH+BUILD`
/// shape is a hard error, never silently ignored.
pub fn read_major_jdk_version(release: &str) -> (r: Result<String, ResolveError>)
    ensures
        match r {
            Ok(t) => spec_major_tag(release@) == Some(t@),
            Err(e) => spec_major_tag(release@) is None && e == ResolveError::AssetFormat,
        },
{
    match find_jdk_from(release) {
        Some((k, a)) => {
            let tag = String::from_str("OpenJDK").concat(release.substring_char(k, a)).concat("U");
            Ok(tag)
        },
        None => Err(ResolveError::AssetFormat),
    }
}

/// The fixed per-OS download asset. An unrecognized operating system falls
/// back to the generic asset name rather than failing: the system should
/// still attempt something workable.
pub open spec fn spec_asset_url(os: Os) -> Seq<char> {
    match os {
        Os::Windows => "https://github.com/adoptium/temurin21-binaries/releases/download/jdk-21.0.2%2B13/OpenJDK21U-jdk_x64_windows_hotspot_21.0.2_13.msi.exe"@,
        _ => "[filename]"@,
    }
}

/// The plan auto-provisioning acts on, derived deterministically from a
/// release string and the target operating system.
#[derive(Debug, Clone, PartialEq, Eq)]
pub struct AssetPlan {
    pub operating_system: Os,
    pub asset_url: String,
    pub major_version_tag: String,
}

/// Derive the download plan for a release on one operating system: the
/// major-version tag from the release string, and the download URL from
/// the fixed per-OS table.
pub fn select_asset(release: &str, os: Os) -> (r: Result<AssetPlan, ResolveError>)
    ensures
        match r {
            Ok(p) => spec_major_tag(release@) == Some(p.major_version_tag@) && p.asset_url@
                == spec_asset_url(os) && p.operating_system == os,
            Err(e) => spec_major_tag(release@) is None && e == ResolveError::AssetFormat,
        },
{
    let tag = match read_major_jdk_version(release) {
        Ok(t) => t,
        Err(e) => {
            return Err(e);
        },
    };
    let url = match os {
        Os::Windows => String::from_str(
            "https://github.com/adoptium/temurin21-binaries/releases/download/jdk-21.0.2%2B13/OpenJDK21U-jdk_x64_windows_hotspot_21.0.2_13.msi.exe",
        ),
        _ => String::from_str("[filename]"),
    };
    Ok(AssetPlan { operating_system: os, asset_url: url, major_version_tag: tag })
}

} // verus!
