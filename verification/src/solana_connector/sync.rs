//! The synchronisation decisions of the connector's workers.
//!
//! Catch-up fetches the program's transaction signatures page by page, newest
//! first, until it meets the last signature it processed, and then processes
//! the new ones oldest first, skipping those older than the catch-up depth.
//! The live worker skips the log messages of slots it has already processed.
use vstd::prelude::*;

verus! {

/// A transaction signature as the node lists it, with its slot.
pub struct SignatureInfo {
    pub signature: String,
    pub slot: u64,
}

/// The text of each signature.
pub open spec fn signatures_view(s: Seq<SignatureInfo>) -> Seq<Seq<char>> {
    s.map_values(|x: SignatureInfo| x.signature@)
}

/// The position of the first signature equal to `known`, or the length when
/// there is none.
pub open spec fn first_position(s: Seq<Seq<char>>, known: Seq<char>) -> int
    decreases s.len(),
{
    if s.len() == 0 {
        0
    } else if s[0] == known {
        0
    } else {
        1 + first_position(s.drop_first(), known)
    }
}

/// `first_position` lies within the list, and names a match when it is not
/// the length.
proof fn lemma_first_position(s: Seq<Seq<char>>, known: Seq<char>)
    ensures
        0 <= first_position(s, known) <= s.len(),
        first_position(s, known) < s.len() ==> s[first_position(s, known)] == known,
        forall|j: int| 0 <= j < first_position(s, known) ==> s[j] != known,
    decreases s.len(),
{
    if s.len() > 0 && s[0] != known {
        lemma_first_position(s.drop_first(), known);
        assert forall|j: int| 0 <= j < first_position(s, known) implies s[j] != known by {
            if j > 0 {
                assert(s[j] == s.drop_first()[j - 1]);
            }
        }
    }
}

/// The position of the first signature of the page that equals `known`, or
/// the page's length when none does.
pub fn position_of(page: &Vec<SignatureInfo>, known: &String) -> (r: usize)
    ensures
        r == first_position(signatures_view(page@), known@),
{
    let ghost s = signatures_view(page@);
    let mut i: usize = 0;
    assert(s.skip(0) =~= s);
    while i < page.len()
        invariant
            i <= page@.len(),
            s == signatures_view(page@),
            first_position(s, known@) == i + first_position(s.skip(i as int), known@),
        decreases page@.len() - i,
    {
        let ghost rest = s.skip(i as int);
        assert(rest[0] == page@[i as int].signature@);
        if page[i].signature == *known {
            return i;
        }
        assert(rest.drop_first() =~= s.skip(i + 1));
        i = i + 1;
    }
    assert(s.skip(i as int) =~= Seq::<Seq<char>>::empty());
    i
}

/// The new part of a page ends just before the first occurrence of the last
/// processed signature: no signature in it is the last processed one, so
/// catch-up never hands on again a transaction it has already processed.
pub proof fn lemma_new_part_excludes_known(page: Seq<SignatureInfo>, known: String)
    ensures
        0 <= new_part(page, Some(known)) <= page.len(),
        forall|j: int|
            0 <= j < new_part(page, Some(known)) ==> (#[trigger] page[j]).signature@ != known@,
        new_part(page, Some(known)) < page.len() ==> page[new_part(page, Some(known))].signature@
            == known@,
{
    let s = signatures_view(page);
    lemma_first_position(s, known@);
    assert forall|j: int| 0 <= j < new_part(page, Some(known)) implies (#[trigger] page[j]).signature@
        != known@ by {
        assert(s[j] == page[j].signature@);
    }
    if new_part(page, Some(known)) < page.len() {
        assert(s[new_part(page, Some(known))] == page[new_part(page, Some(known))].signature@);
    }
}

/// The state of a catch-up scan: the new signatures collected so far, newest
/// first, and the running count that the optional fetch limit is held to.
pub struct SignatureScan {
    pub collected: Vec<SignatureInfo>,
    pub fetched: usize,
}

/// How much of a page is new: the signatures before the first occurrence of
/// the last processed one, or the whole page when it does not occur.
pub open spec fn new_part(page: Seq<SignatureInfo>, known: Option<String>) -> int {
    match known {
        Some(k) => first_position(signatures_view(page), k@),
        None => page.len() as int,
    }
}

/// Whether the scan ends with this page: the page is empty, holds the last
/// processed signature, or brings the running count to the fetch limit.
pub open spec fn scan_ends(
    page: Seq<SignatureInfo>,
    known: Option<String>,
    fetched: int,
    limit: Option<usize>,
) -> bool {
    ||| page.len() == 0
    ||| new_part(page, known) < page.len()
    ||| (limit matches Some(m) && fetched >= m)
}

impl SignatureScan {
    /// An empty scan.
    pub fn new() -> (r: Self)
        ensures
            r.collected@.len() == 0,
            r.fetched == 0,
    {
        SignatureScan { collected: Vec::new(), fetched: 0 }
    }

    /// Takes in the next page (newest first). The new part of the page is
    /// appended to the collected signatures. When the page does not hold the
    /// last processed signature, the running count grows by the number of
    /// signatures collected so far, page included. Returns whether the scan
    /// is over.
    pub fn absorb_page(
        &mut self,
        page: Vec<SignatureInfo>,
        known: &Option<String>,
        limit: Option<usize>,
    ) -> (done: bool)
        requires
            old(self).fetched + old(self).collected@.len() + page@.len() <= usize::MAX,
        ensures
            final(self).collected@ == old(self).collected@ + page@.take(new_part(page@, *known)),
            final(self).fetched == if page@.len() == 0 || new_part(page@, *known) < page@.len() {
                old(self).fetched as int
            } else {
                old(self).fetched + final(self).collected@.len()
            },
            done == scan_ends(page@, *known, final(self).fetched as int, limit),
    {
        let ghost cut = new_part(page@, *known);
        proof {
            if let Some(k) = known {
                lemma_first_position(signatures_view(page@), k@);
            }
        }
        if page.len() == 0 {
            assert(page@.take(0) =~= Seq::<SignatureInfo>::empty());
            assert(self.collected@ =~= old(self).collected@ + page@.take(cut));
            return true;
        }
        let pos = match known {
            Some(k) => position_of(&page, k),
            None => page.len(),
        };
        let mut page = page;
        if pos < page.len() {
            let ghost p0 = page@;
            page.truncate(pos);
            assert(page@ =~= p0.take(cut));
            self.collected.append(&mut page);
            return true;
        }
        assert(page@.take(cut) =~= page@);
        self.collected.append(&mut page);
        self.fetched = self.fetched + self.collected.len();
        match limit {
            Some(m) => self.fetched >= m,
            None => false,
        }
    }
}

/// The signatures, oldest first.
pub fn oldest_first(newest_first: Vec<SignatureInfo>) -> (r: Vec<SignatureInfo>)
    ensures
        r@ == newest_first@.reverse(),
{
    let ghost orig = newest_first@;
    let mut rest = newest_first;
    let mut out: Vec<SignatureInfo> = Vec::new();
    while rest.len() > 0
        invariant
            rest@ == orig.take(rest@.len() as int),
            out@.len() + rest@.len() == orig.len(),
            forall|j: int| 0 <= j < out@.len() ==> #[trigger] out@[j] == orig[orig.len() - 1 - j],
        decreases rest@.len(),
    {
        let x = rest.pop().unwrap();
        out.push(x);
        assert(rest@ =~= orig.take(rest@.len() as int));
    }
    assert(out@ =~= orig.reverse());
    out
}

/// The lower slot bound of catch-up: `current_slot - depth`, or 0 when the
/// depth reaches past the first slot.
pub open spec fn depth_floor(current_slot: u64, depth: u64) -> int {
    if current_slot >= depth {
        current_slot - depth
    } else {
        0
    }
}

/// A signature is processed unless a catch-up depth is set and its slot lies
/// below `current_slot - depth`.
pub open spec fn spec_within_catchup_depth(slot: u64, current_slot: u64, max_depth: Option<u64>) -> bool {
    match max_depth {
        Some(depth) => slot >= depth_floor(current_slot, depth),
        None => true,
    }
}

/// Whether a signature at `slot` lies within the catch-up depth.
pub fn is_within_catchup_depth(slot: u64, current_slot: u64, max_depth: Option<u64>) -> (r: bool)
    ensures
        r == spec_within_catchup_depth(slot, current_slot, max_depth),
{
    match max_depth {
        Some(depth) => !(slot < current_slot.saturating_sub(depth)),
        None => true,
    }
}

/// The signatures that lie within the catch-up depth, in order.
pub open spec fn within_depth(s: Seq<SignatureInfo>, current_slot: u64, max_depth: Option<u64>) -> Seq<
    SignatureInfo,
>
    decreases s.len(),
{
    if s.len() == 0 {
        Seq::empty()
    } else {
        let rest = within_depth(s.drop_last(), current_slot, max_depth);
        if spec_within_catchup_depth(s.last().slot, current_slot, max_depth) {
            rest.push(s.last())
        } else {
            rest
        }
    }
}

/// Keeps the signatures that lie within the catch-up depth, in order.
pub fn select_within_depth(
    signatures: Vec<SignatureInfo>,
    current_slot: u64,
    max_depth: Option<u64>,
) -> (r: Vec<SignatureInfo>)
    ensures
        r@ == within_depth(signatures@, current_slot, max_depth),
{
    let ghost orig = signatures@;
    let mut rest = oldest_first(signatures);
    let mut out: Vec<SignatureInfo> = Vec::new();
    while rest.len() > 0
        invariant
            rest@.len() <= orig.len(),
            rest@ == orig.reverse().take(rest@.len() as int),
            out@ == within_depth(orig.take(orig.len() - rest@.len()), current_slot, max_depth),
        decreases rest@.len(),
    {
        let ghost n = orig.len() - rest@.len();
        let x = rest.pop().unwrap();
        proof {
            assert(x == orig.reverse()[rest@.len() as int]);
            assert(x == orig[n]);
            assert(orig.take(n + 1).drop_last() =~= orig.take(n));
            assert(orig.take(n + 1).last() == orig[n]);
            assert(rest@ =~= orig.reverse().take(rest@.len() as int));
        }
        if is_within_catchup_depth(x.slot, current_slot, max_depth) {
            out.push(x);
        }
    }
    assert(orig.take(orig.len() as int) =~= orig);
    out
}

/// The signatures one catch-up round processes, in order: those the scan
/// collected (newest first), turned oldest first, keeping those within the
/// catch-up depth.
pub fn catchup_plan(collected: Vec<SignatureInfo>, current_slot: u64, max_depth: Option<u64>) -> (r:
    Vec<SignatureInfo>)
    ensures
        r@ == within_depth(collected@.reverse(), current_slot, max_depth),
{
    let ordered = oldest_first(collected);
    select_within_depth(ordered, current_slot, max_depth)
}

/// `now - block_time`, held to the range of `i64`.
pub open spec fn saturating_age(now: i64, block_time: i64) -> int {
    if now - block_time > i64::MAX {
        i64::MAX as int
    } else if now - block_time < i64::MIN {
        i64::MIN as int
    } else {
        now - block_time
    }
}

/// A transaction is too old to deliver when its block time is known and its
/// age exceeds the maximum age, given in minutes.
pub open spec fn spec_too_old(block_time: Option<i64>, now: i64, max_age_minutes: u32) -> bool {
    match block_time {
        Some(t) => saturating_age(now, t) > max_age_minutes * 60,
        None => false,
    }
}

/// Whether a transaction is too old to deliver its events.
pub fn is_too_old(block_time: Option<i64>, now: i64, max_age_minutes: u32) -> (r: bool)
    ensures
        r == spec_too_old(block_time, now, max_age_minutes),
{
    match block_time {
        Some(t) => {
            let age: i64 = if t > 0 && now < i64::MIN + t {
                i64::MIN
            } else if t < 0 && now > i64::MAX + t {
                i64::MAX
            } else {
                now - t
            };
            let max_age: i64 = max_age_minutes as i64 * 60;
            age > max_age
        },
        None => false,
    }
}

/// The catch-up depth in plain arithmetic: with a depth set, a signature is
/// processed exactly when its slot lies no more than `depth` slots below the
/// current one; without, always.
pub proof fn lemma_catchup_depth_window(slot: u64, current_slot: u64, max_depth: Option<u64>)
    ensures
        max_depth matches Some(d) ==> (spec_within_catchup_depth(slot, current_slot, max_depth)
            <==> slot + d >= current_slot),
        max_depth is None ==> spec_within_catchup_depth(slot, current_slot, max_depth),
{
}

/// Catch-up keeps, in their order, exactly the signatures within the depth.
pub proof fn lemma_within_depth_filters(s: Seq<SignatureInfo>, current_slot: u64, max_depth: Option<u64>)
    ensures
        within_depth(s, current_slot, max_depth) == s.filter(
            |x: SignatureInfo| spec_within_catchup_depth(x.slot, current_slot, max_depth),
        ),
    decreases s.len(),
{
    reveal_with_fuel(Seq::filter, 1);
    if s.len() > 0 {
        lemma_within_depth_filters(s.drop_last(), current_slot, max_depth);
    }
}

/// A transaction is too old exactly when its block time is known and it lies
/// more than the maximum age (in minutes, sixty seconds each) before `now`,
/// the difference being taken without overflow.
pub proof fn lemma_too_old_by_age(block_time: Option<i64>, now: i64, max_age_minutes: u32)
    ensures
        block_time is None ==> !spec_too_old(block_time, now, max_age_minutes),
        block_time matches Some(t) ==> (i64::MIN <= now - t <= i64::MAX ==> (spec_too_old(
            block_time,
            now,
            max_age_minutes,
        ) <==> now - t > 60 * max_age_minutes)),
{
}

/// The live worker handles the logs of a slot only when it is newer than the
/// last slot it processed.
pub fn is_new_slot(slot: u64, last_slot: u64) -> (r: bool)
    ensures
        r == (slot > last_slot),
{
    !(slot <= last_slot)
}

} // verus!
