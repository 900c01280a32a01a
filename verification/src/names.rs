//! The names under which chain segments are stored.

use vstd::prelude::*;

use crate::decimal::{
    all_digits, chars_of, differs_first_at, is_digit, law_padded_text_is_the_number,
    lemma_digits_sort, lemma_padded_text, padded_text, power_of_ten, sorts_before, text_value,
};

verus! {

/// The prefix of every stored segment.
pub open spec fn canonical_prefix() -> Seq<char> {
    "canon"@
}

/// The prefix of recent snapshots, below the canonical prefix.
pub open spec fn recent_prefix() -> Seq<char> {
    "recent"@
}

/// The key of the object with the given name.
pub open spec fn key_of(name: Seq<char>) -> Seq<char> {
    canonical_prefix() + "/"@ + name
}

/// The name of the canonical segment that starts at a block.
pub open spec fn segment_name(first_block: u64) -> Seq<char> {
    "z-"@ + padded_text(first_block as nat, 10)
}

/// How many snapshots of one moment have names of their own.
pub const SNAPSHOT_COUNTER_LIMIT: u64 = 1_000_000;

/// Where the counter of snapshots stands after one more: behind the last number
/// it starts again.
pub open spec fn next_count(count: u64) -> u64 {
    if count == u64::MAX {
        0
    } else {
        (count + 1) as u64
    }
}

/// Where the counter of snapshots stands after `taken` more.
pub open spec fn count_after(count: u64, taken: nat) -> u64
    decreases taken,
{
    if taken == 0 {
        count
    } else {
        next_count(count_after(count, (taken - 1) as nat))
    }
}

/// The name of a snapshot of a recent segment: its block range, when it was
/// taken, and a counter.
pub open spec fn recent_snapshot_name(
    first_block: u64,
    last_block: u64,
    timestamp_ns: u128,
    counter: u64,
) -> Seq<char> {
    recent_prefix() + "/z-"@ + padded_text(first_block as nat, 10) + "-"@ + padded_text(
        last_block as nat,
        10,
    ) + "-"@ + padded_text(timestamp_ns as nat, 20) + "-"@ + padded_text(
        (counter % SNAPSHOT_COUNTER_LIMIT) as nat,
        6,
    )
}

/// The start of the key of every recent snapshot.
pub open spec fn recent_key_prefix() -> Seq<char> {
    canonical_prefix() + "/"@ + recent_prefix() + "/"@
}

/// Whether `s` starts with `prefix`.
pub fn starts_with(s: &str, prefix: &str) -> (starts: bool)
    ensures
        starts == prefix@.is_prefix_of(s@),
{
    let chars: Vec<char> = chars_of(s);
    let wanted: Vec<char> = chars_of(prefix);
    if chars.len() < wanted.len() {
        return false;
    }
    let mut i: usize = 0;
    while i < wanted.len()
        invariant
            chars@ == s@,
            wanted@ == prefix@,
            wanted@.len() <= chars@.len(),
            i <= wanted@.len(),
            forall|j: int| 0 <= j < i ==> #[trigger] chars@[j] == wanted@[j],
        decreases wanted.len() - i,
    {
        if chars[i] != wanted[i] {
            assert(s@.subrange(0, prefix@.len() as int)[i as int] != prefix@[i as int]);
            return false;
        }
        i = i + 1;
    }
    assert(s@.subrange(0, prefix@.len() as int) =~= prefix@);
    true
}

/// What follows a common prefix is determined by the whole.
proof fn lemma_same_prefix(prefix: Seq<char>, a: Seq<char>, b: Seq<char>)
    requires
        prefix + a == prefix + b,
    ensures
        a == b,
{
    assert(a =~= (prefix + a).skip(prefix.len() as int));
    assert(b =~= (prefix + b).skip(prefix.len() as int));
}

/// A common prefix does not change how texts sort.
proof fn lemma_sorts_behind_prefix(prefix: Seq<char>, a: Seq<char>, b: Seq<char>)
    requires
        sorts_before(a, b),
    ensures
        sorts_before(prefix + a, prefix + b),
{
    let k = choose|k: int| #[trigger] differs_first_at(a, b, k) && a[k] < b[k];
    let n = prefix.len() as int;
    assert((prefix + a).take(n + k) =~= prefix + a.take(k));
    assert((prefix + b).take(n + k) =~= prefix + b.take(k));
    assert(differs_first_at(prefix + a, prefix + b, n + k));
}

/// Digits up to a dash, and what follows the dash, are determined by the whole.
proof fn lemma_split_at_dash(a: Seq<char>, x: Seq<char>, b: Seq<char>, y: Seq<char>)
    requires
        all_digits(a),
        all_digits(b),
        a + seq!['-'] + x == b + seq!['-'] + y,
    ensures
        a == b,
        x == y,
{
    let whole = a + seq!['-'] + x;
    assert(whole[a.len() as int] == '-');
    assert(whole[b.len() as int] == (b + seq!['-'] + y)[b.len() as int]);
    if a.len() < b.len() {
        assert(whole[a.len() as int] == b[a.len() as int]);
        assert(is_digit(b[a.len() as int]));
    } else if b.len() < a.len() {
        assert(whole[b.len() as int] == a[b.len() as int]);
        assert(is_digit(a[b.len() as int]));
    }
    assert(a =~= whole.take(a.len() as int));
    assert(b =~= whole.take(b.len() as int));
    assert(x =~= whole.skip(a.len() as int + 1));
    assert(y =~= whole.skip(b.len() as int + 1));
}

/// A key is `canon/` and behind it exactly the name.
pub proof fn law_key_is_prefix_and_name(name: Seq<char>)
    ensures
        key_of(name).len() == 6 + name.len(),
        key_of(name).take(6) == "canon/"@,
        key_of(name).skip(6) == name,
{
    reveal_strlit("canon");
    reveal_strlit("/");
    reveal_strlit("canon/");
    assert(key_of(name).take(6) =~= "canon/"@);
    assert(key_of(name).skip(6) =~= name);
}

/// The key of a canonical segment is `canon/z-` and behind it exactly the number
/// of its first block: at least ten digits, and more only where the number has
/// more.
pub proof fn law_segment_key_names_the_block(first_block: u64)
    ensures
        ({
            let key = key_of(segment_name(first_block));
            let digits = key.skip(8);
            &&& key.len() >= 18
            &&& key.take(8) == "canon/z-"@
            &&& forall|i: int| 0 <= i < digits.len() ==> '0' <= #[trigger] digits[i] && digits[i]
                <= '9'
            &&& text_value(digits) == first_block
            &&& digits.len() > 10 ==> digits[0] != '0'
        }),
{
    law_padded_text_is_the_number(first_block as nat, 10);
    reveal_strlit("canon");
    reveal_strlit("/");
    reveal_strlit("z-");
    reveal_strlit("canon/z-");
    let key = key_of(segment_name(first_block));
    let digits = padded_text(first_block as nat, 10);
    assert(key.take(8) =~= "canon/z-"@);
    assert(key.skip(8) =~= digits);
}

/// The key of a snapshot is `canon/recent/z-` and behind it, with dashes between
/// them, the first block and the last block in ten digits or more, the time in
/// twenty or more, and the last six digits of the count.
pub proof fn law_snapshot_key_names_range_time_and_count(
    first_block: u64,
    last_block: u64,
    timestamp_ns: u128,
    count: u64,
)
    ensures
        key_of(recent_snapshot_name(first_block, last_block, timestamp_ns, count))
            == "canon/recent/z-"@ + padded_text(first_block as nat, 10) + seq!['-'] + padded_text(
            last_block as nat,
            10,
        ) + seq!['-'] + padded_text(timestamp_ns as nat, 20) + seq!['-'] + padded_text(
            (count % 1_000_000) as nat,
            6,
        ),
{
    lemma_snapshot_name_parts(first_block, last_block, timestamp_ns, count);
    reveal_strlit("canon");
    reveal_strlit("/");
    reveal_strlit("recent");
    reveal_strlit("/z-");
    reveal_strlit("canon/recent/z-");
    let first = padded_text(first_block as nat, 10);
    let last = padded_text(last_block as nat, 10);
    let time = padded_text(timestamp_ns as nat, 20);
    let tail = padded_text((count % 1_000_000) as nat, 6);
    let dash = seq!['-'];
    assert(canonical_prefix() + "/"@ + (recent_prefix() + "/z-"@) =~= "canon/recent/z-"@);
    assert(key_of(recent_snapshot_name(first_block, last_block, timestamp_ns, count))
        =~= "canon/recent/z-"@ + first + dash + last + dash + time + dash + tail);
}

/// The recent segment used to be kept under `canon/recent`; the keys of snapshots
/// start with `canon/recent/`.
pub proof fn law_recent_keys_are_these()
    ensures
        key_of(recent_prefix()) == "canon/recent"@,
        recent_key_prefix() == "canon/recent/"@,
{
    reveal_strlit("canon");
    reveal_strlit("/");
    reveal_strlit("recent");
    reveal_strlit("canon/recent");
    reveal_strlit("canon/recent/");
    assert(key_of(recent_prefix()) =~= "canon/recent"@);
    assert(recent_key_prefix() =~= "canon/recent/"@);
}

/// Each snapshot takes the counter one further, in 64 bits.
pub proof fn law_counter_goes_up_by_one(count: u64)
    ensures
        next_count(count) as int == (count + 1) % 0x1_0000_0000_0000_0000,
{
}

/// Canonical segments that start at different blocks have different keys.
pub proof fn law_segment_keys_distinct(a: u64, b: u64)
    requires
        a != b,
    ensures
        key_of(segment_name(a)) != key_of(segment_name(b)),
{
    lemma_padded_text(a as nat, 10);
    lemma_padded_text(b as nat, 10);
    if key_of(segment_name(a)) == key_of(segment_name(b)) {
        lemma_same_prefix(canonical_prefix() + "/"@, segment_name(a), segment_name(b));
        lemma_same_prefix("z-"@, padded_text(a as nat, 10), padded_text(b as nat, 10));
    }
}

/// Below block ten billion, the keys of canonical segments sort by first block.
pub proof fn law_segment_keys_sort(a: u64, b: u64)
    requires
        a < b,
        b < 10_000_000_000,
    ensures
        sorts_before(key_of(segment_name(a)), key_of(segment_name(b))),
{
    assert(power_of_ten(10) == 10_000_000_000) by {
        reveal_with_fuel(power_of_ten, 11);
    }
    let pa = padded_text(a as nat, 10);
    let pb = padded_text(b as nat, 10);
    lemma_padded_text(a as nat, 10);
    lemma_padded_text(b as nat, 10);
    lemma_digits_sort(pa, pb);
    lemma_sorts_behind_prefix("z-"@, pa, pb);
    lemma_sorts_behind_prefix(canonical_prefix() + "/"@, segment_name(a), segment_name(b));
}

/// The name of a snapshot, taken apart at its dashes.
proof fn lemma_snapshot_name_parts(first_block: u64, last_block: u64, timestamp_ns: u128, counter: u64)
    ensures
        ({
            let first = padded_text(first_block as nat, 10);
            let last = padded_text(last_block as nat, 10);
            let time = padded_text(timestamp_ns as nat, 20);
            let count = padded_text((counter % SNAPSHOT_COUNTER_LIMIT) as nat, 6);
            let dash = seq!['-'];
            recent_snapshot_name(first_block, last_block, timestamp_ns, counter)
                == recent_prefix() + "/z-"@ + (first + dash + (last + dash + (time + dash + count)))
        }),
{
    reveal_strlit("-");
    assert("-"@ =~= seq!['-']);
    let first = padded_text(first_block as nat, 10);
    let last = padded_text(last_block as nat, 10);
    let time = padded_text(timestamp_ns as nat, 20);
    let count = padded_text((counter % SNAPSHOT_COUNTER_LIMIT) as nat, 6);
    let dash = seq!['-'];
    assert(recent_snapshot_name(first_block, last_block, timestamp_ns, counter) =~= recent_prefix()
        + "/z-"@ + (first + dash + (last + dash + (time + dash + count))));
}

/// Snapshots that differ in their block range, their time or the last six digits
/// of their counter have different keys.
pub proof fn law_snapshot_keys_distinct(
    first_a: u64,
    last_a: u64,
    time_a: u128,
    count_a: u64,
    first_b: u64,
    last_b: u64,
    time_b: u128,
    count_b: u64,
)
    requires
        first_a != first_b || last_a != last_b || time_a != time_b || count_a
            % SNAPSHOT_COUNTER_LIMIT != count_b % SNAPSHOT_COUNTER_LIMIT,
    ensures
        key_of(recent_snapshot_name(first_a, last_a, time_a, count_a)) != key_of(
            recent_snapshot_name(first_b, last_b, time_b, count_b),
        ),
{
    let name_a = recent_snapshot_name(first_a, last_a, time_a, count_a);
    let name_b = recent_snapshot_name(first_b, last_b, time_b, count_b);
    if key_of(name_a) == key_of(name_b) {
        let dash = seq!['-'];
        let fa = padded_text(first_a as nat, 10);
        let la = padded_text(last_a as nat, 10);
        let ta = padded_text(time_a as nat, 20);
        let ca = padded_text((count_a % SNAPSHOT_COUNTER_LIMIT) as nat, 6);
        let fb = padded_text(first_b as nat, 10);
        let lb = padded_text(last_b as nat, 10);
        let tb = padded_text(time_b as nat, 20);
        let cb = padded_text((count_b % SNAPSHOT_COUNTER_LIMIT) as nat, 6);
        lemma_padded_text(first_a as nat, 10);
        lemma_padded_text(last_a as nat, 10);
        lemma_padded_text(time_a as nat, 20);
        lemma_padded_text((count_a % SNAPSHOT_COUNTER_LIMIT) as nat, 6);
        lemma_padded_text(first_b as nat, 10);
        lemma_padded_text(last_b as nat, 10);
        lemma_padded_text(time_b as nat, 20);
        lemma_padded_text((count_b % SNAPSHOT_COUNTER_LIMIT) as nat, 6);
        lemma_same_prefix(canonical_prefix() + "/"@, name_a, name_b);
        let head = recent_prefix() + "/z-"@;
        let time_tail_a = ta + dash + ca;
        let time_tail_b = tb + dash + cb;
        let last_tail_a = la + dash + time_tail_a;
        let last_tail_b = lb + dash + time_tail_b;
        lemma_snapshot_name_parts(first_a, last_a, time_a, count_a);
        lemma_snapshot_name_parts(first_b, last_b, time_b, count_b);
        lemma_same_prefix(head, fa + dash + last_tail_a, fb + dash + last_tail_b);
        lemma_split_at_dash(fa, last_tail_a, fb, last_tail_b);
        lemma_split_at_dash(la, time_tail_a, lb, time_tail_b);
        lemma_split_at_dash(ta, ca, tb, cb);
    }
}

/// Until it starts again, the counter stands at the sum.
proof fn lemma_count_after(count: u64, taken: nat)
    requires
        count + taken <= u64::MAX,
    ensures
        count_after(count, taken) == count + taken,
    decreases taken,
{
    if taken > 0 {
        lemma_count_after(count, (taken - 1) as nat);
    }
}

/// Snapshots that are taken one after the other on one counter have different
/// keys, even at one moment and of one range: up to a million of them, as long as
/// the counter does not start again.
pub proof fn law_successive_snapshots_distinct(
    count: u64,
    taken: nat,
    first_a: u64,
    last_a: u64,
    time_a: u128,
    first_b: u64,
    last_b: u64,
    time_b: u128,
)
    requires
        0 < taken < SNAPSHOT_COUNTER_LIMIT,
        count + taken <= u64::MAX,
    ensures
        key_of(recent_snapshot_name(first_a, last_a, time_a, count)) != key_of(
            recent_snapshot_name(first_b, last_b, time_b, count_after(count, taken)),
        ),
{
    lemma_count_after(count, taken);
    let later = count_after(count, taken);
    assert(count % 1_000_000 != later % 1_000_000) by (nonlinear_arith)
        requires
            later == count + taken,
            0 < taken < 1_000_000,
    ;
    law_snapshot_keys_distinct(first_a, last_a, time_a, count, first_b, last_b, time_b, later);
}

/// The key of a snapshot is one that a pointer to a recent snapshot may have.
pub proof fn law_snapshot_keys_are_recent(
    first_block: u64,
    last_block: u64,
    timestamp_ns: u128,
    counter: u64,
)
    ensures
        recent_key_prefix().is_prefix_of(
            key_of(recent_snapshot_name(first_block, last_block, timestamp_ns, counter)),
        ),
{
    reveal_strlit("/");
    reveal_strlit("/z-");
    let key = key_of(recent_snapshot_name(first_block, last_block, timestamp_ns, counter));
    assert(key.subrange(0, recent_key_prefix().len() as int) =~= recent_key_prefix());
}

/// No canonical segment, and not the recent segment where it used to be kept,
/// has a key that a pointer to a recent snapshot may have.
pub proof fn law_other_keys_are_not_recent(first_block: u64)
    ensures
        !recent_key_prefix().is_prefix_of(key_of(segment_name(first_block))),
        !recent_key_prefix().is_prefix_of(key_of(recent_prefix())),
{
    reveal_strlit("canon");
    reveal_strlit("/");
    reveal_strlit("z-");
    reveal_strlit("recent");
    let key = key_of(segment_name(first_block));
    let prefix = recent_key_prefix();
    assert(key[6] == 'z');
    assert(prefix[6] == 'r');
    if prefix.is_prefix_of(key) {
        assert(key.subrange(0, prefix.len() as int)[6] == key[6]);
    }
}

/// No canonical segment has the key under which the recent segment used to be
/// kept.
pub proof fn law_legacy_key_is_its_own(first_block: u64)
    ensures
        key_of(segment_name(first_block)) != key_of(recent_prefix()),
{
    reveal_strlit("canon");
    reveal_strlit("/");
    reveal_strlit("z-");
    reveal_strlit("recent");
    assert(key_of(segment_name(first_block))[6] == 'z');
    assert(key_of(recent_prefix())[6] == 'r');
}

} // verus!
