//! The scp-style transfer planner: operand grammar and plan determination.
//!
//! An operand is remote when it holds a `:` outside `[...]`; what precedes
//! that colon is an optional `user@host` target and what follows it is the
//! remote path. Any other operand is a local path.
use vstd::prelude::*;

use crate::paths::{file_name, file_name_of, normalize_remote_path, normalized_path, opt_view};
use crate::text::{
    ends_with_char, eq_ignore_ascii_case, eq_ignore_ascii_case_spec, str_eq,
    strip_leading, strip_trailing, trim_end_char, trim_start_char,
};

verus! {

/// A local path operand, kept as it was given.
#[derive(Debug, Clone)]
pub struct LocalOperand {
    pub raw: String,
    pub path: String,
    /// The operand ended with `/`.
    pub explicit_dir: bool,
}

/// A remote operand: the `user@host` target is kept only for consistency
/// warnings, the path in its canonical `/`-rooted form.
#[derive(Debug, Clone)]
pub struct RemoteOperand {
    pub raw: String,
    pub host: Option<String>,
    pub normalized: String,
    /// The path fragment ended with `/` or was empty.
    pub explicit_dir: bool,
}

#[derive(Debug, Clone)]
pub enum Operand {
    Local(LocalOperand),
    Remote(RemoteOperand),
}

/// The direction of a transfer and its participants: sources are all of one
/// kind, the destination of the other.
#[derive(Debug)]
#[allow(inconsistent_fields)]
pub enum TransferPlan {
    Upload { sources: Vec<LocalOperand>, destination: RemoteOperand },
    Download { sources: Vec<RemoteOperand>, destination: LocalOperand },
}

/// Why a transfer could not be planned or carried out; each names the
/// operand or path at fault.
#[derive(Debug, Clone, PartialEq, Eq)]
pub enum TransferError {
    /// Fewer than one source and one destination were given.
    TooFewOperands,
    /// No source operand was given.
    NoSources,
    /// A remote source was given for a remote destination.
    RemoteToRemote { source: String },
    /// A local source was given for a local destination.
    LocalToLocal { source: String, destination: String },
    /// The destination exists and is not a directory, but must be one.
    DestinationNotDirectory { destination: String },
    /// Several sources were given and the destination is not a directory.
    MultipleSourcesNeedDirectory { destination: String },
    /// A source is a directory and the copy is not recursive.
    IsADirectory { source: String },
    /// A local source is neither a regular file nor a directory.
    NotFileOrDirectory { source: String },
    /// No file name can be taken from a local source path.
    NoFileName { source: String },
    /// A remote source does not exist.
    RemoteMissing { source: String },
    /// A remote path that must be a directory exists as something else.
    RemoteNotDirectory { path: String },
}

/// The nesting depth of `[...]` after reading `s`; a `]` at depth zero is
/// ignored.
pub open spec fn bracket_depth(s: Seq<char>) -> nat
    decreases s.len(),
{
    if s.len() == 0 {
        0
    } else {
        let d = bracket_depth(s.drop_last());
        if s.last() == '[' {
            d + 1
        } else if s.last() == ']' {
            if d == 0 {
                0
            } else {
                (d - 1) as nat
            }
        } else {
            d
        }
    }
}

/// `s[i]` is a colon outside any `[...]`.
pub open spec fn is_split_colon(s: Seq<char>, i: int) -> bool {
    0 <= i < s.len() && s[i] == ':' && bracket_depth(s.take(i)) == 0
}

/// `s[k]` is the first colon outside any `[...]`.
pub open spec fn is_first_split_colon(s: Seq<char>, k: int) -> bool {
    is_split_colon(s, k) && forall|j: int| 0 <= j < k ==> !is_split_colon(s, j)
}

/// Splits a remote specifier at its first colon outside `[...]` into the
/// target before it and the path fragment after it; `None` when there is no
/// such colon.
pub fn split_remote_spec(raw: &str) -> (r: Option<(String, String)>)
    ensures
        r is None <==> forall|i: int| !is_split_colon(raw@, i),
        r matches Some((t, rest)) ==> {
            &&& is_first_split_colon(raw@, t@.len() as int)
            &&& t@ == raw@.take(t@.len() as int)
            &&& rest@ == raw@.skip(t@.len() as int + 1)
        },
{
    let n = raw.unicode_len();
    let mut depth: usize = 0;
    let mut i: usize = 0;
    assert(raw@.take(0) =~= Seq::<char>::empty());
    while i < n
        invariant
            i <= n,
            n == raw@.len(),
            depth == bracket_depth(raw@.take(i as int)),
            depth <= i,
            forall|j: int| 0 <= j < i ==> !is_split_colon(raw@, j),
        decreases n - i,
    {
        let ch = raw.get_char(i);
        assert(raw@.take(i + 1).drop_last() =~= raw@.take(i as int));
        if ch == ':' && depth == 0 {
            let target = String::from_str(raw.substring_char(0, i));
            let rest = String::from_str(raw.substring_char(i + 1, n));
            assert(raw@.subrange(0, i as int) =~= raw@.take(i as int));
            assert(raw@.subrange(i + 1, n as int) =~= raw@.skip(i + 1));
            assert(is_split_colon(raw@, i as int));
            return Some((target, rest));
        }
        if ch == '[' {
            depth = depth + 1;
        } else if ch == ']' {
            if depth > 0 {
                depth = depth - 1;
            }
        }
        i = i + 1;
    }
    assert forall|j: int| !is_split_colon(raw@, j) by {
        if 0 <= j < n {
        }
    }
    None
}

/// The index of the last `c` in `s`, or -1.
pub open spec fn last_index(s: Seq<char>, c: char) -> int
    decreases s.len(),
{
    if s.len() == 0 {
        -1
    } else if s.last() == c {
        s.len() - 1
    } else {
        last_index(s.drop_last(), c)
    }
}

proof fn lemma_last_index_range(s: Seq<char>, c: char)
    ensures
        -1 <= last_index(s, c) < s.len(),
        last_index(s, c) >= 0 ==> s[last_index(s, c)] == c,
    decreases s.len(),
{
    if s.len() > 0 && s.last() != c {
        lemma_last_index_range(s.drop_last(), c);
    }
}

/// Finds the last `c` in `s`.
fn find_last(s: &str, c: char) -> (r: Option<usize>)
    ensures
        match r {
            Some(k) => k as int == last_index(s@, c),
            None => last_index(s@, c) == -1,
        },
{
    let mut j: usize = s.unicode_len();
    assert(s@.take(j as int) =~= s@);
    while j > 0
        invariant
            j <= s@.len(),
            last_index(s@, c) == last_index(s@.take(j as int), c),
        decreases j,
    {
        assert(s@.take(j as int).drop_last() =~= s@.take(j - 1));
        if s.get_char(j - 1) == c {
            return Some(j - 1);
        }
        j = j - 1;
    }
    None
}

/// Splits a `user@host` target at its last `@`: no user when there is no
/// `@`, and neither part when the target is empty.
pub fn split_user_and_host(target: &str) -> (r: (Option<&str>, Option<&str>))
    ensures
        target@.len() == 0 ==> r.0 is None && r.1 is None,
        target@.len() > 0 && last_index(target@, '@') < 0 ==> {
            &&& r.0 is None
            &&& r.1 matches Some(h) && h@ == target@
        },
        target@.len() > 0 && last_index(target@, '@') >= 0 ==> {
            let k = last_index(target@, '@');
            &&& r.0 matches Some(u) && u@ == target@.take(k)
            &&& r.1 matches Some(h) && h@ == target@.skip(k + 1)
        },
{
    let n = target.unicode_len();
    if n == 0 {
        return (None, None);
    }
    proof {
        lemma_last_index_range(target@, '@');
    }
    match find_last(target, '@') {
        Some(k) => {
            let user = target.substring_char(0, k);
            let host = target.substring_char(k + 1, n);
            assert(target@.subrange(0, k as int) =~= target@.take(k as int));
            assert(target@.subrange(k + 1, n as int) =~= target@.skip(k + 1));
            (Some(user), Some(host))
        },
        None => (None, Some(target)),
    }
}

/// `host` without `[` at its start and `]` at its end.
pub open spec fn unbracketed(host: Seq<char>) -> Seq<char> {
    strip_trailing(strip_leading(host, '['), ']')
}

/// Unwraps an IPv6 literal from its brackets.
pub fn trim_ipv6_brackets(host: &str) -> (r: &str)
    ensures
        r@ == unbracketed(host@),
{
    trim_end_char(trim_start_char(host, '['), ']')
}

/// The host that a remote target names: what follows its last `@` (or the
/// whole target), unwrapped of IPv6 brackets; none when that is empty.
pub open spec fn target_host(target: Seq<char>) -> Option<Seq<char>> {
    let k = last_index(target, '@');
    let h = if k < 0 {
        target
    } else {
        target.skip(k + 1)
    };
    if target.len() == 0 || h.len() == 0 {
        None
    } else {
        Some(unbracketed(h))
    }
}

/// A remote path fragment names a directory when it is empty or ends with `/`.
pub open spec fn fragment_is_dir(fragment: Seq<char>) -> bool {
    fragment.len() == 0 || fragment.last() == '/'
}

/// `op` is what `raw` parses to.
pub open spec fn parses_to(raw: Seq<char>, op: Operand) -> bool {
    match op {
        Operand::Local(l) => {
            &&& forall|i: int| !is_split_colon(raw, i)
            &&& l.raw@ == raw
            &&& l.path@ == raw
            &&& l.explicit_dir == (raw.len() > 0 && raw.last() == '/')
        },
        Operand::Remote(m) => exists|k: int|
            is_first_split_colon(raw, k) && {
                let fragment = raw.skip(k + 1);
                &&& m.raw@ == raw
                &&& opt_view(m.host) == target_host(raw.take(k))
                &&& m.normalized@ == normalized_path(fragment)
                &&& m.explicit_dir == fragment_is_dir(fragment)
            },
    }
}

/// Parses one operand: remote when it holds a colon outside `[...]`, local
/// otherwise.
pub fn parse_operand(raw: &str) -> (r: Operand)
    ensures
        parses_to(raw@, r),
{
    match split_remote_spec(raw) {
        Some((target, fragment)) => {
            let (_, host) = split_user_and_host(target.as_str());
            let parsed_host = match host {
                Some(h) => {
                    if h.unicode_len() == 0 {
                        None
                    } else {
                        Some(String::from_str(trim_ipv6_brackets(h)))
                    }
                },
                None => None,
            };
            let explicit_dir = fragment.as_str().unicode_len() == 0 || ends_with_char(
                fragment.as_str(),
                '/',
            );
            let normalized = normalize_remote_path(fragment.as_str());
            let op = RemoteOperand {
                raw: String::from_str(raw),
                host: parsed_host,
                normalized,
                explicit_dir,
            };
            let ghost k = target@.len() as int;
            assert(is_first_split_colon(raw@, k));
            assert(opt_view(op.host) == target_host(raw@.take(k)));
            Operand::Remote(op)
        },
        None => {
            let explicit_dir = ends_with_char(raw, '/');
            Operand::Local(
                LocalOperand {
                    raw: String::from_str(raw),
                    path: String::from_str(raw),
                    explicit_dir,
                },
            )
        },
    }
}

/// Parses the command line operands: all but the last are sources, the
/// last is the destination.
pub fn parse_operands(values: &[String]) -> (r: Result<(Vec<Operand>, Operand), TransferError>)
    ensures
        values@.len() < 2 <==> r == Err::<(Vec<Operand>, Operand), _>(TransferError::TooFewOperands),
        values@.len() >= 2 ==> r is Ok,
        r matches Ok((sources, destination)) ==> {
            &&& sources@.len() == values@.len() - 1
            &&& forall|i: int| 0 <= i < sources@.len() ==> parses_to(values@[i]@, #[trigger] sources@[i])
            &&& parses_to(values@[values@.len() - 1]@, destination)
        },
{
    let n = values.len();
    if n < 2 {
        return Err(TransferError::TooFewOperands);
    }
    let mut sources: Vec<Operand> = Vec::new();
    let mut i: usize = 0;
    while i < n - 1
        invariant
            n == values@.len(),
            n >= 2,
            i <= n - 1,
            sources@.len() == i,
            forall|j: int| 0 <= j < i ==> parses_to(values@[j]@, #[trigger] sources@[j]),
        decreases n - 1 - i,
    {
        let op = parse_operand(values[i].as_str());
        sources.push(op);
        i = i + 1;
    }
    let destination = parse_operand(values[n - 1].as_str());
    Ok((sources, destination))
}

/// The plan that `sources` and `destination` determine: an upload of local
/// sources to a remote destination or a download of remote sources to a
/// local destination; the first source of the destination's own kind is
/// rejected by name.
pub open spec fn plan_result(sources: Seq<Operand>, destination: Operand) -> Result<Seq<Operand>, TransferError> {
    if sources.len() == 0 {
        Err(TransferError::NoSources)
    } else {
        match destination {
            Operand::Remote(_) => if forall|i: int| 0 <= i < sources.len() ==> sources[i] is Local {
                Ok(sources)
            } else {
                let k = choose|k: int| first_of_kind(sources, k, false);
                Err(TransferError::RemoteToRemote { source: sources[k]->Remote_0.raw })
            },
            Operand::Local(d) => if forall|i: int| 0 <= i < sources.len() ==> sources[i] is Remote {
                Ok(sources)
            } else {
                let k = choose|k: int| first_of_kind(sources, k, true);
                Err(TransferError::LocalToLocal { source: sources[k]->Local_0.raw, destination: d.raw })
            },
        }
    }
}

/// `sources[k]` is the first local source (`local`) or the first remote one.
pub open spec fn first_of_kind(sources: Seq<Operand>, k: int, local: bool) -> bool {
    &&& 0 <= k < sources.len()
    &&& (sources[k] is Local) == local
    &&& forall|j: int| 0 <= j < k ==> (sources[j] is Local) != local
}

/// Decides the direction of a transfer. A remote destination takes local
/// sources only and gives an upload; a local destination takes remote
/// sources only and gives a download; the first source of the wrong kind
/// fails the whole plan.
pub fn determine_transfer_plan(sources: Vec<Operand>, destination: Operand) -> (r: Result<TransferPlan, TransferError>)
    ensures
        match plan_result(sources@, destination) {
            Err(e) => r == Err::<TransferPlan, _>(e),
            Ok(_) => match r {
                Ok(TransferPlan::Upload { sources: s, destination: d }) => {
                    &&& destination == Operand::Remote(d)
                    &&& s@.len() == sources@.len()
                    &&& forall|i: int| 0 <= i < s@.len() ==> sources@[i] == Operand::Local(#[trigger] s@[i])
                },
                Ok(TransferPlan::Download { sources: s, destination: d }) => {
                    &&& destination == Operand::Local(d)
                    &&& s@.len() == sources@.len()
                    &&& forall|i: int| 0 <= i < s@.len() ==> sources@[i] == Operand::Remote(#[trigger] s@[i])
                },
                Err(_) => false,
            },
        },
{
    let ghost orig = sources@;
    if sources.len() == 0 {
        return Err(TransferError::NoSources);
    }
    let mut rest = sources;
    match destination {
        Operand::Remote(dest) => {
            let mut locals: Vec<LocalOperand> = Vec::new();
            while rest.len() > 0
                invariant
                    locals@.len() + rest@.len() == orig.len(),
                    rest@ == orig.skip(locals@.len() as int),
                    forall|i: int| 0 <= i < locals@.len() ==> orig[i] == Operand::Local(#[trigger] locals@[i]),
                    destination == Operand::Remote(dest),
                    orig.len() > 0,
                    orig == sources@,
                decreases rest@.len(),
            {
                let ghost at = locals@.len() as int;
                let op = rest.remove(0);
                assert(op == orig[at]);
                match op {
                    Operand::Local(l) => {
                        locals.push(l);
                        assert(rest@ =~= orig.skip(locals@.len() as int));
                    },
                    Operand::Remote(m) => {
                        proof {
                            assert forall|j: int| 0 <= j < at implies (orig[j] is Local) != false by {
                                assert(orig[j] == Operand::Local(locals@[j]));
                            }
                            assert(first_of_kind(orig, at, false));
                            assert(!(orig[at] is Local));
                            let k = choose|k: int| first_of_kind(orig, k, false);
                            if k < at {
                                assert(orig[k] == Operand::Local(locals@[k]));
                            }
                            if at < k {
                            }
                            assert(k == at);
                            assert(orig[at] == Operand::Remote(m));
                            assert(!(forall|i: int| 0 <= i < orig.len() ==> orig[i] is Local));
                            assert(plan_result(orig, destination) == Err::<Seq<Operand>, TransferError>(TransferError::RemoteToRemote { source: m.raw }));
                        }
                        return Err(TransferError::RemoteToRemote { source: m.raw });
                    },
                }
            }
            assert(forall|i: int| 0 <= i < orig.len() ==> orig[i] is Local) by {
                assert forall|i: int| 0 <= i < orig.len() implies orig[i] is Local by {
                    assert(orig[i] == Operand::Local(locals@[i]));
                }
            }
            Ok(TransferPlan::Upload { sources: locals, destination: dest })
        },
        Operand::Local(dest) => {
            let mut remotes: Vec<RemoteOperand> = Vec::new();
            while rest.len() > 0
                invariant
                    remotes@.len() + rest@.len() == orig.len(),
                    rest@ == orig.skip(remotes@.len() as int),
                    forall|i: int| 0 <= i < remotes@.len() ==> orig[i] == Operand::Remote(#[trigger] remotes@[i]),
                    destination == Operand::Local(dest),
                    orig.len() > 0,
                    orig == sources@,
                decreases rest@.len(),
            {
                let ghost at = remotes@.len() as int;
                let op = rest.remove(0);
                assert(op == orig[at]);
                match op {
                    Operand::Remote(m) => {
                        remotes.push(m);
                        assert(rest@ =~= orig.skip(remotes@.len() as int));
                    },
                    Operand::Local(l) => {
                        proof {
                            assert forall|j: int| 0 <= j < at implies (orig[j] is Local) != true by {
                                assert(orig[j] == Operand::Remote(remotes@[j]));
                            }
                            assert(first_of_kind(orig, at, true));
                            let k = choose|k: int| first_of_kind(orig, k, true);
                            if k < at {
                                assert(orig[k] == Operand::Remote(remotes@[k]));
                            }
                            assert(k == at);
                        }
                        return Err(TransferError::LocalToLocal { source: l.raw, destination: dest.raw });
                    },
                }
            }
            assert(forall|i: int| 0 <= i < orig.len() ==> orig[i] is Remote) by {
                assert forall|i: int| 0 <= i < orig.len() implies orig[i] is Remote by {
                    assert(orig[i] == Operand::Remote(remotes@[i]));
                }
            }
            Ok(TransferPlan::Download { sources: remotes, destination: dest })
        },
    }
}

/// Whether a remote operand agrees with the host that the service targets:
/// it does when either names no host, when it names the placeholder
/// `remote` or `@remote`, or when the two are equal up to ASCII case. A
/// disagreement only warrants a warning; the transfer still goes to the
/// configured target.
pub open spec fn host_aligned(expected: Option<Seq<char>>, host: Option<Seq<char>>) -> bool {
    match (expected, host) {
        (Some(e), Some(h)) => h == seq!['r', 'e', 'm', 'o', 't', 'e'] || h == seq!['@', 'r', 'e', 'm', 'o', 't', 'e']
            || eq_ignore_ascii_case_spec(h, e),
        _ => true,
    }
}

/// Checks a remote operand's host against the service's target host.
pub fn ensure_host_alignment(expected: Option<&str>, remote: &RemoteOperand) -> (r: bool)
    ensures
        r == host_aligned(
            match expected {
                Some(e) => Some(e@),
                None => None,
            },
            opt_view(remote.host),
        ),
{
    let e = match expected {
        Some(e) => e,
        None => return true,
    };
    let h = match &remote.host {
        Some(h) => h.as_str(),
        None => return true,
    };
    proof {
        reveal_strlit("remote");
        reveal_strlit("@remote");
    }
    let placeholder = "remote";
    let at_placeholder = "@remote";
    assert(placeholder@ =~= seq!['r', 'e', 'm', 'o', 't', 'e']);
    assert(at_placeholder@ =~= seq!['@', 'r', 'e', 'm', 'o', 't', 'e']);
    if str_eq(h, placeholder) || str_eq(h, at_placeholder) {
        return true;
    }
    eq_ignore_ascii_case(h, e)
}

impl LocalOperand {
    /// The file name of the local path, under which it lands inside a
    /// destination directory.
    pub fn basename(&self) -> (r: Result<String, TransferError>)
        ensures
            match file_name(self.path@) {
                Some(name) => r matches Ok(n) && n@ == name,
                None => r == Err::<String, _>(TransferError::NoFileName { source: self.raw }),
            },
    {
        match file_name_of(self.path.as_str()) {
            Some(name) => Ok(name),
            None => Err(TransferError::NoFileName { source: self.raw.clone() }),
        }
    }
}

impl TransferPlan {
    /// The direction, as a word for the operator.
    pub fn label(&self) -> (r: &'static str)
        ensures
            self is Upload ==> r@ == "upload"@,
            self is Download ==> r@ == "download"@,
    {
        match self {
            TransferPlan::Upload { .. } => "upload",
            TransferPlan::Download { .. } => "download",
        }
    }

    /// How many sources the plan copies.
    pub fn source_count(&self) -> (r: usize)
        ensures
            r == match self {
                TransferPlan::Upload { sources, .. } => sources@.len(),
                TransferPlan::Download { sources, .. } => sources@.len(),
            },
    {
        match self {
            TransferPlan::Upload { sources, .. } => sources.len(),
            TransferPlan::Download { sources, .. } => sources.len(),
        }
    }
}

} // verus!
