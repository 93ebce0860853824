//! Which recordings the Recent panel lists, in which order, and the text
//! shown for each of them.
use vstd::prelude::*;
use crate::app::{RecentRecording, MAX_RECENT_RECORDINGS};
use crate::size::{format_size, size_text};
use crate::text::{all_digits, decimal, digit_char, digits_value, lemma_decimal_reads_back, lemma_space_padded, lemma_zero_padded_reads_back, pad_left, push_decimal, push_decimal_zero_padded, push_char, push_str};
use crate::upload::metadata::EpisodeMetadata;

verus! {

/// An mp3 found in the output directory: its modification time (in
/// nanoseconds from the Unix epoch, `None` when the platform reports none),
/// its path as raw bytes and its size.
#[derive(Debug, Clone)]
pub struct ScanEntry {
    pub modified: Option<i128>,
    pub path: Vec<u8>,
    pub size: u64,
}

/// Byte strings in lexicographic order, compared from position `i` on.
pub open spec fn bytes_lt_from(a: Seq<u8>, b: Seq<u8>, i: nat) -> bool
    decreases a.len() - i,
{
    if i >= a.len() {
        i < b.len()
    } else if i >= b.len() {
        false
    } else if a[i as int] != b[i as int] {
        a[i as int] < b[i as int]
    } else {
        bytes_lt_from(a, b, i + 1)
    }
}

/// Modification times in order, a missing time sorting before any time.
pub open spec fn modified_lt(a: Option<i128>, b: Option<i128>) -> bool {
    match (a, b) {
        (None, Some(_)) => true,
        (Some(x), Some(y)) => x < y,
        _ => false,
    }
}

/// The order the Recent panel sorts by (it lists the greatest first):
/// modification time, then path.
pub open spec fn entry_lt(a: ScanEntry, b: ScanEntry) -> bool {
    modified_lt(a.modified, b.modified) || (a.modified == b.modified && bytes_lt_from(a.path@, b.path@, 0))
}

/// Same position in the order.
pub open spec fn entry_eq(a: ScanEntry, b: ScanEntry) -> bool {
    a.modified == b.modified && a.path@ == b.path@
}

proof fn lemma_bytes_irreflexive(a: Seq<u8>, i: nat)
    ensures
        !bytes_lt_from(a, a, i),
    decreases a.len() - i,
{
    if i < a.len() {
        lemma_bytes_irreflexive(a, i + 1);
    }
}

proof fn lemma_bytes_transitive(a: Seq<u8>, b: Seq<u8>, c: Seq<u8>, i: nat)
    requires
        bytes_lt_from(a, b, i),
        bytes_lt_from(b, c, i),
    ensures
        bytes_lt_from(a, c, i),
    decreases a.len() - i,
{
    if i < a.len() && i < b.len() && i < c.len() && a[i as int] == b[i as int] && b[i as int] == c[i as int] {
        lemma_bytes_transitive(a, b, c, i + 1);
    }
}

proof fn lemma_bytes_total(a: Seq<u8>, b: Seq<u8>, i: nat)
    requires
        i <= a.len(),
        i <= b.len(),
        a.subrange(0, i as int) == b.subrange(0, i as int),
    ensures
        bytes_lt_from(a, b, i) || bytes_lt_from(b, a, i) || a == b,
    decreases a.len() - i,
{
    if i < a.len() && i < b.len() && a[i as int] == b[i as int] {
        assert(a.subrange(0, (i + 1) as int) =~= a.subrange(0, i as int).push(a[i as int]));
        assert(b.subrange(0, (i + 1) as int) =~= b.subrange(0, i as int).push(b[i as int]));
        lemma_bytes_total(a, b, i + 1);
    } else if i == a.len() && i == b.len() {
        assert(a =~= a.subrange(0, i as int));
        assert(b =~= b.subrange(0, i as int));
    }
}

/// The sort order is a strict total order (up to equal keys).
pub proof fn entry_order_is_total(a: ScanEntry, b: ScanEntry, c: ScanEntry)
    ensures
        !entry_lt(a, a),
        entry_lt(a, b) && entry_lt(b, c) ==> entry_lt(a, c),
        entry_lt(a, b) || entry_lt(b, a) || entry_eq(a, b),
        entry_eq(a, b) ==> !entry_lt(a, b) && !entry_lt(b, a),
{
    lemma_bytes_irreflexive(a.path@, 0);
    lemma_bytes_irreflexive(b.path@, 0);
    if entry_lt(a, b) && entry_lt(b, c) && a.modified == b.modified && b.modified == c.modified {
        lemma_bytes_transitive(a.path@, b.path@, c.path@, 0);
    }
    assert(a.path@.subrange(0, 0) =~= b.path@.subrange(0, 0));
    lemma_bytes_total(a.path@, b.path@, 0);
}

fn bytes_less(a: &Vec<u8>, b: &Vec<u8>) -> (r: bool)
    ensures
        r == bytes_lt_from(a@, b@, 0),
{
    let mut i: usize = 0;
    while i < a.len() && i < b.len() && a[i] == b[i]
        invariant
            i <= a@.len(),
            i <= b@.len(),
            bytes_lt_from(a@, b@, 0) == bytes_lt_from(a@, b@, i as nat),
        decreases a@.len() - i,
    {
        i = i + 1;
    }
    if i >= a.len() {
        i < b.len()
    } else if i >= b.len() {
        false
    } else {
        a[i] < b[i]
    }
}

fn entry_less(a: &ScanEntry, b: &ScanEntry) -> (r: bool)
    ensures
        r == entry_lt(*a, *b),
{
    match (a.modified, b.modified) {
        (None, Some(_)) => true,
        (Some(x), Some(y)) => {
            if x < y {
                true
            } else if x == y {
                bytes_less(&a.path, &b.path)
            } else {
                false
            }
        },
        (None, None) => bytes_less(&a.path, &b.path),
        (Some(_), None) => false,
    }
}

/// `order` lists, by index into `entries`, distinct entries from the
/// greatest down (equal keys in their original order), and every entry
/// left out sorts at or below all of them — after equal listed ones.
pub open spec fn newest_first_prefix(entries: Seq<ScanEntry>, order: Seq<usize>) -> bool {
    &&& forall|k: int| 0 <= k < order.len() ==> #[trigger] order[k] < entries.len()
    &&& forall|k1: int, k2: int| 0 <= k1 < k2 < order.len() ==> order[k1] != order[k2]
    &&& forall|k1: int, k2: int| 0 <= k1 < k2 < order.len()
        ==> !entry_lt(entries[order[k1] as int], entries[order[k2] as int])
    &&& forall|k1: int, k2: int| 0 <= k1 < k2 < order.len()
        && entry_eq(entries[order[k1] as int], entries[order[k2] as int]) ==> order[k1] < order[k2]
    &&& forall|j: int, k: int| 0 <= j < entries.len() && !order.contains(j as usize) && 0 <= k < order.len()
        ==> !entry_lt(#[trigger] entries[order[k] as int], #[trigger] entries[j])
    &&& forall|j: int, k: int| 0 <= j < entries.len() && !order.contains(j as usize) && 0 <= k < order.len()
        && entry_eq(#[trigger] entries[order[k] as int], #[trigger] entries[j]) ==> order[k] < j
}

/// Newer recordings come first: down the panel the modification times
/// never increase, and files without a time come after all timed ones. A
/// file left off the panel is never newer than one shown.
pub proof fn newest_first_lists_newest(entries: Seq<ScanEntry>, order: Seq<usize>)
    requires
        newest_first_prefix(entries, order),
    ensures
        forall|k1: int, k2: int| 0 <= k1 < k2 < order.len()
            ==> (#[trigger] entries[order[k2] as int].modified matches Some(y)
                ==> (#[trigger] entries[order[k1] as int].modified matches Some(x) && y <= x)),
        forall|j: int, k: int| 0 <= j < entries.len() && !order.contains(j as usize) && 0 <= k < order.len()
            ==> (#[trigger] entries[j].modified matches Some(y)
                ==> (#[trigger] entries[order[k] as int].modified matches Some(x) && y <= x)),
{
    assert forall|k1: int, k2: int| 0 <= k1 < k2 < order.len()
        implies (#[trigger] entries[order[k2] as int].modified matches Some(y)
            ==> (#[trigger] entries[order[k1] as int].modified matches Some(x) && y <= x)) by {
        assert(!entry_lt(entries[order[k1] as int], entries[order[k2] as int]));
    }
    assert forall|j: int, k: int| 0 <= j < entries.len() && !order.contains(j as usize) && 0 <= k < order.len()
        implies (#[trigger] entries[j].modified matches Some(y)
            ==> (#[trigger] entries[order[k] as int].modified matches Some(x) && y <= x)) by {
        assert(!entry_lt(entries[order[k] as int], entries[j]));
    }
}

/// The Recent panel's rows, as indices into `entries`: newest first (path
/// breaking ties, both descending), at most `MAX_RECENT_RECORDINGS` of them.
/// This is the order a stable descending sort followed by truncation gives.
pub fn newest_first(entries: &Vec<ScanEntry>) -> (order: Vec<usize>)
    ensures
        order@.len() == if entries@.len() < MAX_RECENT_RECORDINGS {
            entries@.len()
        } else {
            MAX_RECENT_RECORDINGS as nat
        },
        newest_first_prefix(entries@, order@),
{
    let n = entries.len();
    let limit = if n < MAX_RECENT_RECORDINGS { n } else { MAX_RECENT_RECORDINGS };
    let mut taken: Vec<bool> = Vec::new();
    let mut t: usize = 0;
    while t < n
        invariant
            t <= n,
            taken@.len() == t,
            forall|j: int| 0 <= j < t ==> !taken@[j],
        decreases n - t,
    {
        taken.push(false);
        t = t + 1;
    }
    let mut order: Vec<usize> = Vec::new();
    while order.len() < limit
        invariant
            n == entries@.len(),
            limit <= n,
            order@.len() <= limit,
            taken@.len() == n,
            forall|j: int| 0 <= j < n ==> (#[trigger] taken@[j] <==> order@.contains(j as usize)),
            newest_first_prefix(entries@, order@),
        decreases limit - order@.len(),
    {
        // Some entry is still free, since fewer than `n` were taken.
        let ghost free_exists: bool = exists|j: int| 0 <= j < n && !taken@[j];
        proof {
            if !free_exists {
                // Every index is listed, and listed indices are distinct.
                assert forall|j: usize| j < n implies #[trigger] order@.contains(j) by {
                    assert(taken@[j as int]);
                }
                lemma_distinct_cover(order@, n as nat);
            }
        }
        let mut best: usize = n;
        let mut j: usize = 0;
        while j < n
            invariant
                n == entries@.len(),
                taken@.len() == n,
                j <= n,
                best == n || (best < j && !taken@[best as int]),
                best == n ==> forall|i: int| 0 <= i < j ==> taken@[i],
                best < n ==> forall|i: int| 0 <= i < j && !taken@[i]
                    ==> !entry_lt(entries@[best as int], #[trigger] entries@[i]),
                best < n ==> forall|i: int| 0 <= i < best && !taken@[i]
                    ==> entry_lt(#[trigger] entries@[i], entries@[best as int]),
            decreases n - j,
        {
            if !taken[j] {
                if best == n {
                    proof {
                        entry_order_is_total(entries@[j as int], entries@[j as int], entries@[j as int]);
                    }
                    best = j;
                } else if entry_less(&entries[best], &entries[j]) {
                    proof {
                        assert forall|i: int| 0 <= i < j && !taken@[i]
                            implies entry_lt(#[trigger] entries@[i], entries@[j as int]) by {
                            entry_order_is_total(entries@[i], entries@[best as int], entries@[j as int]);
                        }
                        assert forall|i: int| 0 <= i < j + 1 && !taken@[i]
                            implies !entry_lt(entries@[j as int], #[trigger] entries@[i]) by {
                            entry_order_is_total(entries@[best as int], entries@[j as int], entries@[i]);
                            entry_order_is_total(entries@[j as int], entries@[best as int], entries@[i]);
                            if i < j {
                                assert(!entry_lt(entries@[best as int], entries@[i]));
                            }
                        }
                    }
                    best = j;
                }
            }
            j = j + 1;
        }
        assert(best < n);
        let ghost old_order = order@;
        proof {
            lemma_pick_extends(entries@, old_order, taken@, best as int);
        }
        taken.set(best, true);
        order.push(best);
        proof {
            assert forall|i: int| 0 <= i < n implies (taken@[i] <==> order@.contains(i as usize)) by {
                if i == best {
                    assert(order@[order@.len() - 1] == best);
                } else {
                    if old_order.contains(i as usize) {
                        let k = choose|k: int| 0 <= k < old_order.len() && old_order[k] == i as usize;
                        assert(order@[k] == i as usize);
                    }
                    if order@.contains(i as usize) {
                        let k = choose|k: int| 0 <= k < order@.len() && order@[k] == i as usize;
                        assert(k < old_order.len());
                        assert(old_order[k] == i as usize);
                    }
                }
            }
        }
    }
    order
}

/// A list of distinct indices below `n` that covers every index has `n`
/// elements.
proof fn lemma_distinct_cover(order: Seq<usize>, n: nat)
    requires
        forall|k1: int, k2: int| 0 <= k1 < k2 < order.len() ==> order[k1] != order[k2],
        forall|k: int| 0 <= k < order.len() ==> #[trigger] order[k] < n,
        n <= usize::MAX,
        forall|j: usize| j < n ==> #[trigger] order.contains(j),
    ensures
        order.len() >= n,
{
    let s = Set::new(|j: usize| j < n);
    let os = order.to_set();
    assert(s =~= os) by {
        assert forall|j: usize| s.contains(j) implies os.contains(j) by {
            assert(order.contains(j));
        }
        assert forall|j: usize| os.contains(j) implies s.contains(j) by {
            let k = choose|k: int| 0 <= k < order.len() && order[k] == j;
            assert(order[k] < n);
        }
    }
    assert(order.no_duplicates()) by {
        assert forall|i: int, j: int| 0 <= i < order.len() && 0 <= j < order.len() && i != j
            implies order[i] != order[j] by {
            if i < j {
            } else {
            }
        }
    }
    order.unique_seq_to_set();
    lemma_usize_range_len(n);
}

proof fn lemma_usize_range_len(n: nat)
    requires
        n <= usize::MAX,
    ensures
        Set::new(|j: usize| j < n).finite(),
        Set::new(|j: usize| j < n).len() == n,
    decreases n,
{
    let s = Set::new(|j: usize| j < n);
    if n == 0 {
        assert(s =~= Set::empty());
    } else {
        lemma_usize_range_len((n - 1) as nat);
        let p = Set::new(|j: usize| j < (n - 1) as nat);
        assert(!p.contains((n - 1) as usize));
        assert(s =~= p.insert((n - 1) as usize));
    }
}

/// Appending the free entry that is greatest (first among equals) keeps the
/// prefix property.
proof fn lemma_pick_extends(entries: Seq<ScanEntry>, order: Seq<usize>, taken: Seq<bool>, best: int)
    requires
        newest_first_prefix(entries, order),
        entries.len() <= usize::MAX,
        taken.len() == entries.len(),
        forall|j: int| 0 <= j < entries.len() ==> (#[trigger] taken[j] <==> order.contains(j as usize)),
        0 <= best < entries.len(),
        !taken[best],
        forall|i: int| 0 <= i < entries.len() && !taken[i] ==> !entry_lt(entries[best], #[trigger] entries[i]),
        forall|i: int| 0 <= i < best && !taken[i] ==> entry_lt(#[trigger] entries[i], entries[best]),
    ensures
        newest_first_prefix(entries, order.push(best as usize)),
{
    let o2 = order.push(best as usize);
    let m = order.len() as int;
    assert(!order.contains(best as usize));
    assert forall|k1: int, k2: int| 0 <= k1 < k2 < o2.len() implies o2[k1] != o2[k2] by {
        if k2 == m {
            assert(order[k1] == o2[k1]);
        }
    }
    assert forall|k: int| 0 <= k < o2.len() implies #[trigger] o2[k] < entries.len() by {
        if k < m { assert(o2[k] == order[k]); }
    }
    assert forall|k1: int, k2: int| 0 <= k1 < k2 < o2.len()
        implies !entry_lt(entries[o2[k1] as int], entries[o2[k2] as int]) by {
        if k2 == m {
            assert(o2[k1] == order[k1]);
        }
    }
    assert forall|k1: int, k2: int| 0 <= k1 < k2 < o2.len()
        && entry_eq(entries[o2[k1] as int], entries[o2[k2] as int]) implies o2[k1] < o2[k2] by {
        if k2 == m {
            assert(o2[k1] == order[k1]);
        }
    }
    assert forall|j: int, k: int| 0 <= j < entries.len() && !o2.contains(j as usize) && 0 <= k < o2.len()
        implies !entry_lt(#[trigger] entries[o2[k] as int], #[trigger] entries[j]) by {
        assert(j != best) by {
            if j == best { assert(o2[m] == best as usize); }
        }
        assert(!order.contains(j as usize)) by {
            if order.contains(j as usize) {
                let q = choose|q: int| 0 <= q < order.len() && order[q] == j as usize;
                assert(o2[q] == j as usize);
            }
        }
        assert(!taken[j]);
        if k == m {
            assert(o2[k] == best as usize);
            assert(!entry_lt(entries[best], entries[j]));
        } else {
            assert(o2[k] == order[k]);
            assert(!entry_lt(entries[order[k] as int], entries[j]));
        }
    }
    assert forall|j: int, k: int| 0 <= j < entries.len() && !o2.contains(j as usize) && 0 <= k < o2.len()
        && entry_eq(#[trigger] entries[o2[k] as int], #[trigger] entries[j]) implies o2[k] < j by {
        assert(j != best) by {
            if j == best { assert(o2[m] == best as usize); }
        }
        assert(!order.contains(j as usize)) by {
            if order.contains(j as usize) {
                let q = choose|q: int| 0 <= q < order.len() && order[q] == j as usize;
                assert(o2[q] == j as usize);
            }
        }
        assert(!taken[j]);
        if k == m {
            assert(o2[k] == best as usize);
            assert(entry_eq(entries[best], entries[j]));
            entry_order_is_total(entries[j], entries[best], entries[j]);
            if j < best {
                assert(entry_lt(entries[j], entries[best]));
                assert(false);
            }
            assert(best < j);
        } else {
            assert(o2[k] == order[k]);
            assert(entry_eq(entries[order[k] as int], entries[j]));
        }
    }
}

/// Whether a file extension names an mp3 (ASCII case ignored).
pub open spec fn is_mp3_ext(ext: Seq<char>) -> bool {
    &&& ext.len() == 3
    &&& (ext[0] == 'm' || ext[0] == 'M')
    &&& (ext[1] == 'p' || ext[1] == 'P')
    &&& ext[2] == '3'
}

/// `ext.eq_ignore_ascii_case("mp3")` for the extension of a directory
/// entry; entries without a (UTF-8) extension are not recordings.
pub fn is_mp3_extension(ext: Option<&str>) -> (r: bool)
    ensures
        r == match ext {
            Some(e) => is_mp3_ext(e@),
            None => false,
        },
{
    match ext {
        Some(e) => {
            if e.unicode_len() != 3 {
                return false;
            }
            let a = e.get_char(0);
            let b = e.get_char(1);
            let c = e.get_char(2);
            (a == 'm' || a == 'M') && (b == 'p' || b == 'P') && c == '3'
        },
        None => false,
    }
}

/// The fixed seven-cell duration column: `m:ss` right-aligned in four
/// cells before the colon below an hour, `h:mm:ss` from an hour on, and a
/// dash placeholder when the mp3 could not be parsed.
pub open spec fn duration_column(total_secs: Option<u64>) -> Seq<char> {
    match total_secs {
        Some(t) => {
            let h = t / 3600;
            let m = (t % 3600) / 60;
            let s = t % 60;
            if h == 0 {
                pad_left(decimal(m as nat), 4, ' ') + seq![':'] + pad_left(decimal(s as nat), 2, '0')
            } else {
                decimal(h as nat) + seq![':'] + pad_left(decimal(m as nat), 2, '0') + seq![':']
                    + pad_left(decimal(s as nat), 2, '0')
            }
        },
        None => "     --"@,
    }
}

/// Playback length of a recording (whole seconds, `None` when the mp3
/// could not be parsed) as shown in the Recent panel.
pub fn format_mp3_duration(total_secs: Option<u64>) -> (r: String)
    ensures
        r@ == duration_column(total_secs),
{
    match total_secs {
        Some(total) => {
            let h = total / 3600;
            let m = (total % 3600) / 60;
            let s = total % 60;
            let mut out = String::new();
            if h == 0 {
                let ms = crate::text::decimal_string(m as u128);
                crate::text::push_padded_left(&mut out, ms.as_str(), 4, ' ');
                push_char(&mut out, ':');
                push_decimal_zero_padded(&mut out, s as u128, 2);
            } else {
                push_decimal(&mut out, h as u128);
                push_char(&mut out, ':');
                push_decimal_zero_padded(&mut out, m as u128, 2);
                push_char(&mut out, ':');
                push_decimal_zero_padded(&mut out, s as u128, 2);
            }
            assert(out@ =~= duration_column(total_secs));
            out
        },
        None => String::from_str("     --"),
    }
}

/// One Recent-panel row: size and duration formatted, a dash when the
/// platform gave no modification time.
pub fn recent_row(
    path: String,
    size_bytes: u64,
    duration_secs: Option<u64>,
    timestamp: Option<String>,
    episode: Option<EpisodeMetadata>,
) -> (r: RecentRecording)
    ensures
        r.path == path,
        r.size@ == size_text(size_bytes as nat),
        r.duration@ == duration_column(duration_secs),
        r.timestamp@ == match timestamp {
            Some(t) => t@,
            None => "\u{2014}"@,
        },
        r.episode == episode,
{
    let timestamp = match timestamp {
        Some(t) => t,
        None => String::from_str("\u{2014}"),
    };
    RecentRecording {
        path,
        size: format_size(size_bytes),
        duration: format_mp3_duration(duration_secs),
        timestamp,
        episode,
    }
}

proof fn lemma_small_decimal_len(n: nat)
    ensures
        n < 10 ==> decimal(n).len() == 1,
        10 <= n < 100 ==> decimal(n).len() == 2,
{
    if n >= 10 && n < 100 {
        assert(decimal(n) == decimal(n / 10).push(digit_char(n % 10)));
        assert(decimal(n / 10).len() == 1);
    }
}

/// Below ten hours the duration column is exactly seven cells wide, so the
/// Recent panel stays aligned.
pub proof fn duration_column_is_seven_cells(total_secs: u64)
    requires
        total_secs < 36000,
    ensures
        duration_column(Some(total_secs)).len() == 7,
{
    let h = total_secs / 3600;
    let m = (total_secs % 3600) / 60;
    let s = total_secs % 60;
    lemma_small_decimal_len(h as nat);
    lemma_small_decimal_len(m as nat);
    lemma_small_decimal_len(s as nat);
}

/// The duration column reads back as the playback time: the last field is
/// the seconds within the minute. Below an hour the digits before the colon,
/// after the leading spaces, are the whole minutes; from an hour on the
/// column is hours, minutes within the hour and seconds, colon-separated.
pub proof fn duration_column_reads_back(total_secs: u64)
    ensures
        ({
            let s = duration_column(Some(total_secs));
            let n = s.len() as int;
            &&& n >= 4
            &&& s[n - 3] == ':'
            &&& all_digits(s.subrange(n - 2, n))
            &&& digits_value(s.subrange(n - 2, n)) == total_secs % 60
            &&& total_secs < 3600 ==> exists|k: int| #![trigger s.subrange(k, n - 3)]
                0 <= k < n - 3
                && (forall|i: int| 0 <= i < k ==> #[trigger] s[i] == ' ')
                && all_digits(s.subrange(k, n - 3))
                && digits_value(s.subrange(k, n - 3)) == total_secs / 60
            &&& total_secs >= 3600 ==> {
                &&& n >= 7
                &&& s[n - 6] == ':'
                &&& all_digits(s.subrange(0, n - 6))
                &&& digits_value(s.subrange(0, n - 6)) == total_secs / 3600
                &&& all_digits(s.subrange(n - 5, n - 3))
                &&& digits_value(s.subrange(n - 5, n - 3)) == (total_secs % 3600) / 60
            }
        }),
{
    let t = total_secs;
    let h = (t / 3600) as nat;
    let m = ((t % 3600) / 60) as nat;
    let sec = (t % 60) as nat;
    lemma_zero_padded_reads_back(m, 2);
    lemma_zero_padded_reads_back(sec, 2);
    lemma_decimal_reads_back(h);
    lemma_decimal_reads_back(m);
    let c = pad_left(decimal(sec), 2, '0');
    let s = duration_column(Some(t));
    let n = s.len() as int;
    if h == 0 {
        let a = pad_left(decimal(m), 4, ' ');
        lemma_space_padded(decimal(m), 4);
        assert(s =~= a + seq![':'] + c);
        assert(s.subrange(n - 2, n) =~= c);
        let k = a.len() - decimal(m).len();
        assert(s.subrange(k, n - 3) =~= decimal(m));
        assert(m == t / 60);
        assert forall|i: int| 0 <= i < k implies #[trigger] s[i] == ' ' by {
            assert(s[i] == a[i]);
        }
    } else {
        let b = pad_left(decimal(m), 2, '0');
        assert(s =~= decimal(h) + seq![':'] + b + seq![':'] + c);
        assert(s.subrange(n - 2, n) =~= c);
        assert(s.subrange(n - 5, n - 3) =~= b);
        assert(s.subrange(0, n - 6) =~= decimal(h));
    }
}

} // verus!
