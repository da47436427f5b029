//! Branch records as the repository reports them, the run configuration, and
//! the newest-first order in which branches are offered.
use vstd::prelude::*;
use crate::text::{has_prefix, joined, parse_decimal, parsed_decimal, starts_with};

verus! {

/// One local branch at the moment the branches were listed.
#[derive(Debug, Eq, PartialEq, Clone)]
pub struct BranchInfo {
    pub branch_name: String,
    /// Seconds since the Unix epoch of the branch's last commit.
    pub last_commit_time: i64,
    /// Human-readable age of the last commit ("3 days ago").
    pub time_ago: String,
    /// Whether this branch is the one checked out.
    pub is_current: bool,
    /// Summary of the comparison with the upstream branch, if there is one.
    pub upstream_status: Option<String>,
}

/// Failure to change to another branch.
pub struct BranchChangeFailureException;

/// Where the repository is and how often the screen refreshes.
pub struct Config {
    pub repo_path: String,
    /// Longest wait for a key, in milliseconds, before the screen is redrawn.
    pub tick_rate_ms: u64,
}

/// Redraw interval used when none is given.
pub const DEFAULT_TICK_RATE_MS: u64 = 250;

/// Largest distance from the epoch, in seconds, of a commit time or a clock
/// reading that ages are computed for (about 253,000 years).
pub const TIMESTAMP_LIMIT: i64 = 8_000_000_000_000;

/// An argument that names an option rather than the repository.
pub open spec fn is_option(a: Seq<char>) -> bool {
    starts_with(a, "--"@)
}

/// The interval that a `--tick-rate=<ms>` argument gives, when `<ms>` is a
/// positive decimal number that fits in a `u64`.
pub open spec fn tick_rate_value(a: Seq<char>) -> Option<u64> {
    let p = "--tick-rate="@;
    if starts_with(a, p) {
        match parsed_decimal(a.skip(p.len() as int)) {
            Some(n) => if n > 0 {
                Some(n as u64)
            } else {
                None
            },
            None => None,
        }
    } else {
        None
    }
}

/// The first argument that is not an option.
pub open spec fn first_positional(args: Seq<Seq<char>>) -> Option<Seq<char>>
    decreases args.len(),
{
    if args.len() == 0 {
        None
    } else {
        match first_positional(args.drop_last()) {
            Some(p) => Some(p),
            None => if is_option(args.last()) {
                None
            } else {
                Some(args.last())
            },
        }
    }
}

/// The interval that the last valid `--tick-rate=<ms>` argument gives.
pub open spec fn last_tick_rate(args: Seq<Seq<char>>) -> Option<u64>
    decreases args.len(),
{
    if args.len() == 0 {
        None
    } else {
        match tick_rate_value(args.last()) {
            Some(n) => Some(n),
            None => last_tick_rate(args.drop_last()),
        }
    }
}

/// The arguments after the program name, as text.
pub open spec fn arguments(args: Seq<String>) -> Seq<Seq<char>> {
    if args.len() == 0 {
        Seq::empty()
    } else {
        args.skip(1).map_values(|a: String| a@)
    }
}

/// Reads a `--tick-rate=<ms>` argument.
fn tick_rate_arg(a: &str) -> (r: Option<u64>)
    ensures
        r == tick_rate_value(a@),
{
    let prefix = "--tick-rate=";
    if !has_prefix(a, prefix) {
        return None;
    }
    let p = prefix.unicode_len();
    let digits = a.substring_char(p, a.unicode_len());
    match parse_decimal(digits) {
        Some(n) => if n > 0 {
            Some(n)
        } else {
            None
        },
        None => None,
    }
}

impl Config {
    /// The repository is the first argument after the program name that is
    /// not an option (the current directory when there is none); the redraw
    /// interval is given by the last valid `--tick-rate=<ms>` argument
    /// (`DEFAULT_TICK_RATE_MS` when there is none).
    pub fn new(args: &[String]) -> (c: Config)
        ensures
            c.repo_path@ == match first_positional(arguments(args@)) {
                Some(p) => p,
                None => "."@,
            },
            c.tick_rate_ms == match last_tick_rate(arguments(args@)) {
                Some(n) => n,
                None => DEFAULT_TICK_RATE_MS,
            },
    {
        let ghost all = arguments(args@);
        let mut path: Option<String> = None;
        let mut tick: Option<u64> = None;
        let mut i: usize = 1;
        while i < args.len()
            invariant
                args@.len() > 0 ==> 1 <= i <= args@.len(),
                args@.len() == 0 ==> i == 1,
                args@.len() > 0 ==> all == args@.skip(1).map_values(|a: String| a@),
                match first_positional(all.take(i - 1)) {
                    Some(p) => path matches Some(q) && q@ == p,
                    None => path is None,
                },
                tick == last_tick_rate(all.take(i - 1)),
            decreases args.len() - i,
        {
            let a = args[i].as_str();
            proof {
                assert(all.take(i as int).drop_last() =~= all.take(i - 1));
                assert(all.take(i as int).last() == a@);
            }
            if path.is_none() && !has_prefix(a, "--") {
                path = Some(args[i].clone());
            }
            match tick_rate_arg(a) {
                Some(n) => tick = Some(n),
                None => {},
            }
            i = i + 1;
        }
        assert(all.take(i - 1) =~= all);
        let repo_path = match path {
            Some(p) => p,
            None => String::from_str("."),
        };
        let tick_rate_ms = match tick {
            Some(n) => n,
            None => DEFAULT_TICK_RATE_MS,
        };
        Config { repo_path, tick_rate_ms }
    }
}

/// The text that timeago's default English formatter gives for the time
/// from `commit_time` to `now`, both in seconds since the epoch.
pub uninterp spec fn relative_age(commit_time: int, now: int) -> Seq<char>;

/// Whether a timestamp is one that ages are computed for.
pub open spec fn timestamp_in_range(t: i64) -> bool {
    -TIMESTAMP_LIMIT <= t <= TIMESTAMP_LIMIT
}

/// Relies on chrono's `DateTime::<Utc>::from_timestamp`, which returns a value
/// for every whole second within `TIMESTAMP_LIMIT` of the epoch, and on
/// timeago's `Formatter::convert_chrono` with `Formatter::new()`: the text
/// depends on the two instants alone, is "now" when they are equal and "???"
/// when `now` comes before `commit_time`.
#[verifier::external_body]
fn time_ago_text(commit_time: i64, now: i64) -> (r: String)
    requires
        timestamp_in_range(commit_time),
        timestamp_in_range(now),
    ensures
        r@ == relative_age(commit_time as int, now as int),
        now == commit_time ==> r@ == "now"@,
        now < commit_time ==> r@ == "???"@,
{
    let from = chrono::DateTime::from_timestamp(commit_time, 0).unwrap();
    let to = chrono::DateTime::from_timestamp(now, 0).unwrap();
    timeago::Formatter::new().convert_chrono(from, to)
}

impl BranchInfo {
    /// A branch record whose age text is measured from `now`.
    pub fn new(
        branch_name: String,
        last_commit_time: i64,
        now: i64,
        is_current: bool,
        upstream_status: Option<String>,
    ) -> (b: BranchInfo)
        requires
            timestamp_in_range(last_commit_time),
            timestamp_in_range(now),
        ensures
            b.branch_name == branch_name,
            b.last_commit_time == last_commit_time,
            b.time_ago@ == relative_age(last_commit_time as int, now as int),
            now == last_commit_time ==> b.time_ago@ == "now"@,
            now < last_commit_time ==> b.time_ago@ == "???"@,
            b.is_current == is_current,
            b.upstream_status == upstream_status,
    {
        let time_ago = time_ago_text(last_commit_time, now);
        BranchInfo { branch_name, last_commit_time, time_ago, is_current, upstream_status }
    }
}

/// Selects the branches whose last commit is at time `t`.
pub open spec fn changed_at(t: i64) -> spec_fn(BranchInfo) -> bool {
    |b: BranchInfo| b.last_commit_time == t
}

/// Later commits come first.
pub open spec fn is_newest_first(s: Seq<BranchInfo>) -> bool {
    forall|i: int, j: int|
        0 <= i < j < s.len() ==> #[trigger] s[i].last_commit_time >= #[trigger] s[j].last_commit_time
}

/// `r` holds the branches of `s` newest first, and branches that share a
/// commit time keep the order they have in `s`.
pub open spec fn is_recency_order_of(r: Seq<BranchInfo>, s: Seq<BranchInfo>) -> bool {
    &&& is_newest_first(r)
    &&& forall|t: i64| #[trigger] r.filter(changed_at(t)) == s.filter(changed_at(t))
}

proof fn lemma_filter_none(s: Seq<BranchInfo>, p: spec_fn(BranchInfo) -> bool)
    requires
        forall|i: int| 0 <= i < s.len() ==> !p(#[trigger] s[i]),
    ensures
        s.filter(p) == Seq::<BranchInfo>::empty(),
    decreases s.len(),
{
    reveal(Seq::filter);
    if s.len() > 0 {
        lemma_filter_none(s.drop_last(), p);
    }
}

/// Inserting `x` after every branch at least as new as it keeps the order
/// newest first and appends `x` behind the branches of its own commit time.
proof fn lemma_insert_in_order(r: Seq<BranchInfo>, s: Seq<BranchInfo>, x: BranchInfo, p: int)
    requires
        is_recency_order_of(r, s),
        0 <= p <= r.len(),
        forall|i: int| 0 <= i < p ==> #[trigger] r[i].last_commit_time >= x.last_commit_time,
        forall|i: int| p <= i < r.len() ==> #[trigger] r[i].last_commit_time < x.last_commit_time,
    ensures
        is_recency_order_of(r.insert(p, x), s.push(x)),
{
    reveal(Seq::filter);
    let n = r.insert(p, x);
    assert(n =~= r.take(p) + seq![x] + r.skip(p));
    assert(r =~= r.take(p) + r.skip(p));
    assert forall|t: i64| #[trigger] n.filter(changed_at(t)) == s.push(x).filter(changed_at(t)) by {
        let f = changed_at(t);
        Seq::filter_distributes_over_add(r.take(p) + seq![x], r.skip(p), f);
        Seq::filter_distributes_over_add(r.take(p), seq![x], f);
        Seq::filter_distributes_over_add(r.take(p), r.skip(p), f);
        assert(seq![x].drop_last() =~= Seq::<BranchInfo>::empty());
        assert(s.push(x).drop_last() =~= s);
        if x.last_commit_time == t {
            assert forall|i: int| 0 <= i < r.skip(p).len() implies !f(#[trigger] r.skip(p)[i]) by {
                assert(r.skip(p)[i] == r[p + i]);
            }
            lemma_filter_none(r.skip(p), f);
            assert(n.filter(f) =~= s.push(x).filter(f));
        } else {
            assert(Seq::<BranchInfo>::empty().filter(f) =~= Seq::<BranchInfo>::empty());
            assert(seq![x].filter(f) =~= Seq::<BranchInfo>::empty());
            assert(s.push(x).last() == x);
            assert(s.push(x).filter(f) == s.filter(f));
            assert(n.filter(f) =~= s.push(x).filter(f));
        }
    }
}

/// Orders branches newest first; branches with the same commit time keep the
/// order in which they were listed.
pub fn sort_by_recency(items: Vec<BranchInfo>) -> (r: Vec<BranchInfo>)
    ensures
        is_recency_order_of(r@, items@),
{
    let ghost orig = items@;
    let mut rest = items;
    let mut out: Vec<BranchInfo> = Vec::new();
    let ghost mut k: int = 0;
    assert(orig.take(0).filter(changed_at(0)) == Seq::<BranchInfo>::empty()) by {
        reveal(Seq::filter);
    }
    assert forall|t: i64| #[trigger] out@.filter(changed_at(t)) == orig.take(0).filter(changed_at(t)) by {
        reveal(Seq::filter);
        assert(orig.take(0) =~= out@);
    }
    while rest.len() > 0
        invariant
            0 <= k <= orig.len(),
            rest@ == orig.skip(k),
            is_recency_order_of(out@, orig.take(k)),
        decreases rest.len(),
    {
        assert(rest@[0] == orig[k]);
        let b = rest.remove(0);
        let mut p: usize = 0;
        while p < out.len() && out[p].last_commit_time >= b.last_commit_time
            invariant
                p <= out.len(),
                is_newest_first(out@),
                forall|i: int| 0 <= i < p ==> #[trigger] out@[i].last_commit_time >= b.last_commit_time,
            decreases out.len() - p,
        {
            p = p + 1;
        }
        proof {
            assert forall|i: int| p <= i < out@.len() implies #[trigger] out@[i].last_commit_time
                < b.last_commit_time by {
                if i > p {
                    assert(out@[p as int].last_commit_time >= out@[i].last_commit_time);
                }
            }
            lemma_insert_in_order(out@, orig.take(k), b, p as int);
            assert(orig.take(k).push(b) =~= orig.take(k + 1));
            assert(rest@ =~= orig.skip(k + 1));
        }
        out.insert(p, b);
        proof {
            k = k + 1;
        }
    }
    assert(orig.take(k) =~= orig);
    out
}

/// The character of a decimal digit.
pub open spec fn digit_char(d: nat) -> char {
    seq!['0', '1', '2', '3', '4', '5', '6', '7', '8', '9'][d as int]
}

/// `n` written in decimal, without sign or leading zeros.
pub open spec fn decimal(n: nat) -> Seq<char>
    decreases n,
{
    if n < 10 {
        seq![digit_char(n)]
    } else {
        decimal(n / 10).push(digit_char(n % 10))
    }
}

/// Relies on `ToString` through `Display` for `usize`: the number in decimal.
#[verifier::external_body]
fn decimal_text(n: usize) -> (r: String)
    ensures
        r@ == decimal(n as nat),
{
    n.to_string()
}

/// How a branch compares with its upstream branch, given the commits it has
/// that the upstream lacks (`ahead`) and the reverse (`behind`).
pub open spec fn upstream_text(ahead: nat, behind: nat) -> Seq<char> {
    if ahead == 0 && behind == 0 {
        "up to date"@
    } else if behind == 0 {
        "ahead "@ + decimal(ahead)
    } else if ahead == 0 {
        "behind "@ + decimal(behind)
    } else {
        "ahead "@ + decimal(ahead) + ", behind "@ + decimal(behind)
    }
}

/// Summary of the comparison with the upstream branch.
pub fn upstream_summary(ahead: usize, behind: usize) -> (r: String)
    ensures
        r@ == upstream_text(ahead as nat, behind as nat),
{
    if ahead == 0 && behind == 0 {
        String::from_str("up to date")
    } else if behind == 0 {
        let a = decimal_text(ahead);
        joined("ahead ", a.as_str())
    } else if ahead == 0 {
        let b = decimal_text(behind);
        joined("behind ", b.as_str())
    } else {
        let a = decimal_text(ahead);
        let b = decimal_text(behind);
        let head = joined("ahead ", a.as_str());
        let middle = joined(head.as_str(), ", behind ");
        joined(middle.as_str(), b.as_str())
    }
}

} // verus!
