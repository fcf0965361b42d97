//! The version detector's pure half: validating the `N(.N)+` shape and
//! extracting the version token from the probe command's output.

use vstd::prelude::*;
use vstd::string::StrSliceExecFns;
use crate::errors::DriverError;
use crate::platform::HostOs;
use crate::text::{trim_spec, trim_str};

verus! {

/// The required shape of a Chrome version string: two or more dot-separated
/// non-empty components.  Equivalently: at least one dot, no leading or
/// trailing dot, and no two adjacent dots.
pub open spec fn valid_version(s: Seq<char>) -> bool {
    &&& s.len() > 0
    &&& s[0] != '.'
    &&& s[s.len() - 1] != '.'
    &&& forall|j: int| 0 <= j < s.len() - 1 ==> !(s[j] == '.' && #[trigger] s[j + 1] == '.')
    &&& exists|j: int| 0 <= j < s.len() && s[j] == '.'
}

/// Whether the input is a well-formed version string.
pub fn is_valid_version(s: &str) -> (b: bool)
    ensures
        b == valid_version(s@),
{
    let n = s.unicode_len();
    if n == 0 {
        return false;
    }
    if s.get_char(0) == '.' {
        return false;
    }
    if s.get_char(n - 1) == '.' {
        return false;
    }
    let mut has_dot = false;
    let mut i: usize = 0;
    while i < n
        invariant
            n == s@.len(),
            i <= n,
            has_dot == exists|j: int| 0 <= j < i && s@[j] == '.',
            forall|j: int| 0 <= j < i && j < n - 1 ==> !(s@[j] == '.' && #[trigger] s@[j + 1]
                == '.'),
        decreases n - i,
    {
        if s.get_char(i) == '.' {
            has_dot = true;
            if i + 1 < n && s.get_char(i + 1) == '.' {
                return false;
            }
        }
        i += 1;
    }
    has_dot
}

/// The tokens of the input split at every single space character, as
/// `str::split(" ")` yields them: an empty input gives one empty token, and
/// adjacent spaces give empty tokens.
pub open spec fn split_spaces_spec(s: Seq<char>) -> Seq<Seq<char>>
    decreases s.len(),
{
    if s.len() == 0 {
        seq![Seq::<char>::empty()]
    } else if s[0] == ' ' {
        seq![Seq::<char>::empty()] + split_spaces_spec(s.drop_first())
    } else {
        let rest = split_spaces_spec(s.drop_first());
        rest.update(0, seq![s[0]] + rest[0])
    }
}

pub proof fn lemma_split_spaces_len(s: Seq<char>)
    ensures
        split_spaces_spec(s).len() >= 1,
    decreases s.len(),
{
    if s.len() > 0 {
        lemma_split_spaces_len(s.drop_first());
    }
}

proof fn lemma_split_no_space(s: Seq<char>)
    requires
        forall|j: int| 0 <= j < s.len() ==> s[j] != ' ',
    ensures
        split_spaces_spec(s) == seq![s],
    decreases s.len(),
{
    if s.len() == 0 {
        assert(Seq::<char>::empty() =~= s);
    } else {
        lemma_split_no_space(s.drop_first());
        assert(seq![s[0]] + s.drop_first() =~= s);
        assert(seq![s.drop_first()].update(0, s) =~= seq![s]);
    }
}

proof fn lemma_split_first_space(s: Seq<char>, i: int)
    requires
        0 <= i < s.len(),
        s[i] == ' ',
        forall|j: int| 0 <= j < i ==> s[j] != ' ',
    ensures
        split_spaces_spec(s) == seq![s.subrange(0, i)] + split_spaces_spec(
            s.subrange(i + 1, s.len() as int),
        ),
    decreases i,
{
    if i == 0 {
        assert(s.subrange(0, 0) =~= Seq::<char>::empty());
        assert(s.subrange(1, s.len() as int) =~= s.drop_first());
        assert(seq![s.subrange(0, 0)] =~= seq![Seq::<char>::empty()]);
    } else {
        let d = s.drop_first();
        lemma_split_first_space(d, i - 1);
        lemma_split_spaces_len(d.subrange(i, d.len() as int));
        let rest = split_spaces_spec(d);
        let tail = split_spaces_spec(d.subrange(i, d.len() as int));
        assert(rest[0] == d.subrange(0, i - 1));
        assert(seq![s[0]] + d.subrange(0, i - 1) =~= s.subrange(0, i));
        assert(d.subrange(i, d.len() as int) =~= s.subrange(i + 1, s.len() as int));
        assert(rest.update(0, seq![s[0]] + rest[0]) =~= seq![s.subrange(0, i)]
            + split_spaces_spec(s.subrange(i + 1, s.len() as int)));
    }
}

/// Splits the input at every single space, exactly as `split_spaces_spec`
/// describes.
pub fn split_spaces(s: &str) -> (r: Vec<String>)
    ensures
        r.deep_view() == split_spaces_spec(s@),
    decreases s@.len(),
{
    let n = s.unicode_len();
    let mut i: usize = 0;
    while i < n && s.get_char(i) != ' '
        invariant
            n == s@.len(),
            i <= n,
            forall|j: int| 0 <= j < i ==> s@[j] != ' ',
        decreases n - i,
    {
        i += 1;
    }
    if i == n {
        proof {
            lemma_split_no_space(s@);
        }
        let mut r: Vec<String> = Vec::new();
        r.push(s.to_owned());
        proof {
            assert(r.deep_view() =~= seq![s@]);
        }
        r
    } else {
        let first = s.substring_char(0, i).to_owned();
        let rest = s.substring_char(i + 1, n);
        let mut r = split_spaces(rest);
        r.insert(0, first);
        proof {
            lemma_split_first_space(s@, i as int);
            assert(r.deep_view() =~= seq![s@.subrange(0, i as int)] + split_spaces_spec(
                s@.subrange(i + 1, n as int),
            ));
        }
        r
    }
}

/// What the detector concludes from one host's raw probe output: on Windows
/// the trimmed output itself, elsewhere the third space-separated token of
/// the trimmed output; `None` unless that candidate is a well-formed
/// version.
pub open spec fn detected_version(os: HostOs, raw: Seq<char>) -> Option<Seq<char>> {
    let t = trim_spec(raw);
    if os == HostOs::Windows {
        if valid_version(t) {
            Some(t)
        } else {
            None
        }
    } else {
        let toks = split_spaces_spec(t);
        if toks.len() > 2 && valid_version(toks[2]) {
            Some(toks[2])
        } else {
            None
        }
    }
}

/// The version string the raw probe output yields for one host, or
/// `VersionFormatInvalid` when the output does not contain one.
pub fn get_version_info(os: HostOs, raw: &str) -> (r: Result<String, DriverError>)
    ensures
        r matches Ok(v) ==> detected_version(os, raw@) == Some(v@),
        r is Err ==> detected_version(os, raw@) is None,
        r is Err ==> r == Err::<String, DriverError>(DriverError::VersionFormatInvalid),
{
    let t = trim_str(raw);
    match os {
        HostOs::Windows => {
            if is_valid_version(t.as_str()) {
                Ok(t)
            } else {
                Err(DriverError::VersionFormatInvalid)
            }
        },
        _ => {
            let toks = split_spaces(t.as_str());
            if toks.len() > 2 {
                let candidate = &toks[2];
                if is_valid_version(candidate.as_str()) {
                    Ok(candidate.clone())
                } else {
                    Err(DriverError::VersionFormatInvalid)
                }
            } else {
                Err(DriverError::VersionFormatInvalid)
            }
        },
    }
}

/// A detected version is always well-formed.
pub proof fn lemma_detected_version_valid(os: HostOs, raw: Seq<char>)
    ensures
        detected_version(os, raw) matches Some(v) ==> valid_version(v),
{
}

} // verus!
