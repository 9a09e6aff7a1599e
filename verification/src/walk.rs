//! The fingerprint of a walk over the card's books.
//!
//! A catalog is written over several walks; they must all see the same books
//! in the same order. Each walk folds every field it reports into one number,
//! with a NUL between fields so that adjacent names cannot run together.
use vstd::prelude::*;
use vstd::string::*;

verus! {

pub const WALK_FINGERPRINT_SEED: u32 = 0x811c_9dc5;

pub const WALK_FINGERPRINT_PRIME: u32 = 0x0100_0193;

/// One byte folded in.
pub open spec fn folded_byte(hash: u32, byte: u8) -> u32 {
    (((hash ^ (byte as u32)) * WALK_FINGERPRINT_PRIME) % 0x1_0000_0000) as u32
}

/// Bytes folded in one after another.
pub open spec fn folded(hash: u32, bytes: Seq<u8>) -> u32
    decreases bytes.len(),
{
    if bytes.len() == 0 {
        hash
    } else {
        folded(folded_byte(hash, bytes[0]), bytes.drop_first())
    }
}

/// A number's bytes, the lowest first.
pub open spec fn low_bytes_first(value: u32) -> Seq<u8> {
    seq![
        (value % 256) as u8,
        ((value / 256) % 256) as u8,
        ((value / 65536) % 256) as u8,
        (value / 16777216) as u8,
    ]
}

/// What a walk reports of one book.
pub struct WalkEntry {
    pub path: Seq<u8>,
    pub root: u8,
    pub locator: Seq<u8>,
    pub alias: Seq<u8>,
    pub byte_size: u32,
}

/// A book as the fingerprint reads it.
pub open spec fn entry_bytes(entry: WalkEntry) -> Seq<u8> {
    entry.path + seq![0u8] + seq![entry.root] + entry.locator + seq![0u8] + entry.alias + seq![0u8]
        + low_bytes_first(entry.byte_size)
}

proof fn lemma_fold_concat(hash: u32, a: Seq<u8>, b: Seq<u8>)
    ensures
        folded(hash, a + b) == folded(folded(hash, a), b),
    decreases a.len(),
{
    if a.len() == 0 {
        assert(a + b =~= b);
    } else {
        assert((a + b)[0] == a[0]);
        assert((a + b).drop_first() =~= a.drop_first() + b);
        lemma_fold_concat(folded_byte(hash, a[0]), a.drop_first(), b);
    }
}

fn fold_bytes(hash: u32, bytes: &[u8]) -> (after: u32)
    ensures
        after == folded(hash, bytes@),
{
    let mut after: u32 = hash;
    let mut i: usize = 0;
    proof {
        assert(bytes@.skip(0) =~= bytes@);
    }
    while i < bytes.len()
        invariant
            i <= bytes@.len(),
            folded(after, bytes@.skip(i as int)) == folded(hash, bytes@),
        decreases bytes@.len() - i,
    {
        proof {
            assert(bytes@.skip(i as int)[0] == bytes@[i as int]);
            assert(bytes@.skip(i as int).drop_first() =~= bytes@.skip(i + 1));
        }
        after = fold_byte(after, bytes[i]);
        i += 1;
    }
    assert(bytes@.skip(i as int) =~= Seq::<u8>::empty());
    after
}

fn fold_byte(hash: u32, byte: u8) -> (after: u32)
    ensures
        after == folded_byte(hash, byte),
{
    (hash ^ (byte as u32)).wrapping_mul(WALK_FINGERPRINT_PRIME)
}

/// Folds one book of a walk into its fingerprint.
pub fn fold_walk_entry(hash: &mut u32, path: &str, root: u8, locator: &str, alias: &str, byte_size: u32)
    ensures
        *final(hash) == folded(
            *old(hash),
            entry_bytes(
                (WalkEntry {
                    path: path.spec_bytes(),
                    root,
                    locator: locator.spec_bytes(),
                    alias: alias.spec_bytes(),
                    byte_size,
                }),
            ),
        ),
{
    let ghost p = path.spec_bytes();
    let ghost l = locator.spec_bytes();
    let ghost a = alias.spec_bytes();
    let ghost n = low_bytes_first(byte_size);
    let ghost h = *hash;
    proof {
        let z = seq![0u8];
        let r = seq![root];
        lemma_fold_concat(h, p + z + r + l + z + a + z, n);
        lemma_fold_concat(h, p + z + r + l + z + a, z);
        lemma_fold_concat(h, p + z + r + l + z, a);
        lemma_fold_concat(h, p + z + r + l, z);
        lemma_fold_concat(h, p + z + r, l);
        lemma_fold_concat(h, p + z, r);
        lemma_fold_concat(h, p, z);
    }
    let mut after: u32 = fold_bytes(*hash, path.as_bytes());
    after = fold_one(after, 0);
    after = fold_one(after, root);
    after = fold_bytes(after, locator.as_bytes());
    after = fold_one(after, 0);
    after = fold_bytes(after, alias.as_bytes());
    after = fold_one(after, 0);
    let b0: u8 = (byte_size % 256) as u8;
    let b1: u8 = ((byte_size / 256) % 256) as u8;
    let b2: u8 = ((byte_size / 65536) % 256) as u8;
    let b3: u8 = (byte_size / 16777216) as u8;
    proof {
        lemma_fold_four(after, b0, b1, b2, b3);
        assert(n =~= seq![b0, b1, b2, b3]);
    }
    after = fold_byte(after, b0);
    after = fold_byte(after, b1);
    after = fold_byte(after, b2);
    after = fold_byte(after, b3);
    *hash = after;
}

fn fold_one(hash: u32, byte: u8) -> (after: u32)
    ensures
        after == folded(hash, seq![byte]),
{
    proof {
        assert(seq![byte].drop_first() =~= Seq::<u8>::empty());
        reveal_with_fuel(folded, 2);
    }
    fold_byte(hash, byte)
}

proof fn lemma_fold_four(hash: u32, a: u8, b: u8, c: u8, d: u8)
    ensures
        folded(hash, seq![a, b, c, d]) == folded_byte(
            folded_byte(folded_byte(folded_byte(hash, a), b), c),
            d,
        ),
{
    assert(seq![a, b, c, d].drop_first() =~= seq![b, c, d]);
    assert(seq![b, c, d].drop_first() =~= seq![c, d]);
    assert(seq![c, d].drop_first() =~= seq![d]);
    assert(seq![d].drop_first() =~= Seq::<u8>::empty());
    reveal_with_fuel(folded, 5);
}

/// A whole walk as the fingerprint reads it.
pub open spec fn walk_bytes(entries: Seq<WalkEntry>) -> Seq<u8>
    decreases entries.len(),
{
    if entries.len() == 0 {
        Seq::empty()
    } else {
        entry_bytes(entries[0]) + walk_bytes(entries.drop_first())
    }
}

/// Whether no name of an entry holds a NUL. Names on a card never do.
pub open spec fn no_nul(entry: WalkEntry) -> bool {
    &&& forall|i: int| 0 <= i < entry.path.len() ==> #[trigger] entry.path[i] != 0
    &&& forall|i: int| 0 <= i < entry.locator.len() ==> #[trigger] entry.locator[i] != 0
    &&& forall|i: int| 0 <= i < entry.alias.len() ==> #[trigger] entry.alias[i] != 0
}

/// A text before its NUL, and what follows it, can be told apart again.
proof fn lemma_split_at_nul(a: Seq<u8>, s: Seq<u8>, b: Seq<u8>, t: Seq<u8>)
    requires
        forall|i: int| 0 <= i < a.len() ==> #[trigger] a[i] != 0,
        forall|i: int| 0 <= i < b.len() ==> #[trigger] b[i] != 0,
        a + seq![0u8] + s == b + seq![0u8] + t,
    ensures
        a == b,
        s == t,
{
    let x = a + seq![0u8] + s;
    let y = b + seq![0u8] + t;
    assert(x[a.len() as int] == 0);
    assert(y[b.len() as int] == 0);
    if a.len() < b.len() {
        assert(y[a.len() as int] == b[a.len() as int]);
        assert(false);
    }
    if b.len() < a.len() {
        assert(x[b.len() as int] == a[b.len() as int]);
        assert(false);
    }
    assert forall|i: int| 0 <= i < a.len() implies a[i] == b[i] by {
        assert(x[i] == a[i]);
        assert(y[i] == b[i]);
    }
    assert(a =~= b);
    assert(x.len() == a.len() + 1 + s.len());
    assert(y.len() == b.len() + 1 + t.len());
    assert forall|i: int| 0 <= i < s.len() implies s[i] == t[i] by {
        assert(x[a.len() + 1 + i] == s[i]);
        assert(y[b.len() + 1 + i] == t[i]);
    }
    assert(s =~= t);
}

proof fn lemma_entry_split(e: WalkEntry, s: Seq<u8>, f: WalkEntry, t: Seq<u8>)
    requires
        no_nul(e),
        no_nul(f),
        entry_bytes(e) + s == entry_bytes(f) + t,
    ensures
        e.path == f.path,
        e.root == f.root,
        e.locator == f.locator,
        e.alias == f.alias,
        e.byte_size == f.byte_size,
        s == t,
{
    let z = seq![0u8];
    let en = low_bytes_first(e.byte_size);
    let fn_ = low_bytes_first(f.byte_size);
    let e3 = en + s;
    let f3 = fn_ + t;
    let e2 = e.alias + z + e3;
    let f2 = f.alias + z + f3;
    let e1 = seq![e.root] + (e.locator + z + e2);
    let f1 = seq![f.root] + (f.locator + z + f2);
    assert(entry_bytes(e) + s =~= e.path + z + e1);
    assert(entry_bytes(f) + t =~= f.path + z + f1);
    lemma_split_at_nul(e.path, e1, f.path, f1);
    assert(e1[0] == e.root);
    assert(f1[0] == f.root);
    assert(e1.drop_first() =~= e.locator + z + e2);
    assert(f1.drop_first() =~= f.locator + z + f2);
    lemma_split_at_nul(e.locator, e2, f.locator, f2);
    lemma_split_at_nul(e.alias, e3, f.alias, f3);
    assert(e3[0] == en[0] && f3[0] == fn_[0]);
    assert(e3[1] == en[1] && f3[1] == fn_[1]);
    assert(e3[2] == en[2] && f3[2] == fn_[2]);
    assert(e3[3] == en[3] && f3[3] == fn_[3]);
    lemma_low_bytes(e.byte_size);
    lemma_low_bytes(f.byte_size);
    assert(s =~= e3.skip(4));
    assert(t =~= f3.skip(4));
}

proof fn lemma_low_bytes(value: u32)
    ensures
        ({
            let b = low_bytes_first(value);
            value == b[0] + 256 * b[1] + 65536 * b[2] + 16777216 * b[3]
        }),
{
}

/// Two walks read the same only when they report the same books, with the
/// same sizes, in the same order: no field of one can pass for a field of
/// another, nor the end of one book for the start of the next.
pub proof fn law_walks_do_not_alias(a: Seq<WalkEntry>, b: Seq<WalkEntry>)
    requires
        forall|i: int| 0 <= i < a.len() ==> no_nul(#[trigger] a[i]),
        forall|i: int| 0 <= i < b.len() ==> no_nul(#[trigger] b[i]),
        walk_bytes(a) == walk_bytes(b),
    ensures
        a.len() == b.len(),
        forall|i: int|
            0 <= i < a.len() ==> (#[trigger] a[i]).path == b[i].path && a[i].root == b[i].root
                && a[i].locator == b[i].locator && a[i].alias == b[i].alias && a[i].byte_size
                == b[i].byte_size,
    decreases a.len(),
{
    if a.len() == 0 {
        if b.len() > 0 {
            assert(entry_bytes(b[0]).len() >= 8);
            assert(walk_bytes(b).len() >= 8);
        }
    } else if b.len() == 0 {
        assert(entry_bytes(a[0]).len() >= 8);
        assert(walk_bytes(a).len() >= 8);
    } else {
        lemma_entry_split(
            a[0],
            walk_bytes(a.drop_first()),
            b[0],
            walk_bytes(b.drop_first()),
        );
        let ra = a.drop_first();
        let rb = b.drop_first();
        assert forall|i: int| 0 <= i < ra.len() implies no_nul(#[trigger] ra[i]) by {
            assert(ra[i] == a[i + 1]);
        }
        assert forall|i: int| 0 <= i < rb.len() implies no_nul(#[trigger] rb[i]) by {
            assert(rb[i] == b[i + 1]);
        }
        law_walks_do_not_alias(ra, rb);
        assert forall|i: int| 0 <= i < a.len() implies (#[trigger] a[i]).path == b[i].path
            && a[i].root == b[i].root && a[i].locator == b[i].locator && a[i].alias == b[i].alias
            && a[i].byte_size == b[i].byte_size by {
            if i > 0 {
                assert(ra[i - 1] == a[i]);
                assert(rb[i - 1] == b[i]);
            }
        }
    }
}

proof fn lemma_walk_push(entries: Seq<WalkEntry>, next: WalkEntry)
    ensures
        walk_bytes(entries.push(next)) == walk_bytes(entries) + entry_bytes(next),
    decreases entries.len(),
{
    if entries.len() == 0 {
        assert(entries.push(next).drop_first() =~= entries);
        assert(walk_bytes(entries.push(next)) =~= walk_bytes(entries) + entry_bytes(next));
    } else {
        lemma_walk_push(entries.drop_first(), next);
        assert(entries.push(next).drop_first() =~= entries.drop_first().push(next));
        assert(walk_bytes(entries.push(next)) =~= walk_bytes(entries) + entry_bytes(next));
    }
}

/// Folding the books of a walk in one by one, as they are met, gives the
/// fingerprint of the walk as a whole: it starts at the seed, and each book
/// takes it from the fingerprint of the walk before it to that of the walk
/// with it.
pub proof fn law_fingerprint_is_of_the_whole_walk(hash: u32, entries: Seq<WalkEntry>, next: WalkEntry)
    ensures
        folded(hash, walk_bytes(Seq::empty())) == hash,
        folded(folded(hash, walk_bytes(entries)), entry_bytes(next)) == folded(
            hash,
            walk_bytes(entries.push(next)),
        ),
{
    lemma_walk_push(entries, next);
    lemma_fold_concat(hash, walk_bytes(entries), entry_bytes(next));
}

/// One walk over the card while a batch of records is staged.
#[derive(Clone, Copy, PartialEq, Eq, Structural, Debug)]
pub struct WalkPass {
    /// How many books the walk has reported.
    pub seen: usize,
    /// How many records are staged.
    pub batch_len: usize,
    pub fingerprint: u32,
}

impl WalkPass {
    pub fn new() -> (pass: WalkPass)
        ensures
            pass == (WalkPass { seen: 0, batch_len: 0, fingerprint: WALK_FINGERPRINT_SEED }),
    {
        WalkPass { seen: 0, batch_len: 0, fingerprint: WALK_FINGERPRINT_SEED }
    }

    /// Takes one book. It is staged, in the slot returned, when the books
    /// before `cursor` were staged earlier and the batch has room.
    pub fn visit(
        &mut self,
        cursor: usize,
        batch_capacity: usize,
        path: &str,
        root: u8,
        locator: &str,
        alias: &str,
        byte_size: u32,
    ) -> (slot: Option<usize>)
        requires
            old(self).seen < usize::MAX,
            old(self).batch_len <= batch_capacity,
        ensures
            (*final(self), slot) == visited(
                *old(self),
                cursor as int,
                batch_capacity as int,
                (WalkEntry {
                    path: path.spec_bytes(),
                    root,
                    locator: locator.spec_bytes(),
                    alias: alias.spec_bytes(),
                    byte_size,
                }),
            ),
            final(self).seen == old(self).seen + 1,
            final(self).fingerprint == folded(
                old(self).fingerprint,
                entry_bytes(
                    (WalkEntry {
                        path: path.spec_bytes(),
                        root,
                        locator: locator.spec_bytes(),
                        alias: alias.spec_bytes(),
                        byte_size,
                    }),
                ),
            ),
            slot == if old(self).seen >= cursor && old(self).batch_len < batch_capacity {
                Some(old(self).batch_len)
            } else {
                None
            },
            final(self).batch_len == old(self).batch_len + (if slot is Some { 1int } else { 0 }),
            final(self).batch_len <= batch_capacity,
    {
        fold_walk_entry(&mut self.fingerprint, path, root, locator, alias, byte_size);
        let slot: Option<usize> = if self.seen >= cursor && self.batch_len < batch_capacity {
            Some(self.batch_len)
        } else {
            None
        };
        if slot.is_some() {
            self.batch_len = self.batch_len + 1;
        }
        self.seen = self.seen + 1;
        slot
    }
}

/// The slot the book of this number is staged in, by a pass that stages from
/// `cursor` on.
pub open spec fn slot_of(book: int, cursor: int, batch_capacity: int) -> Option<int> {
    if cursor <= book < cursor + batch_capacity { Some(book - cursor) } else { None }
}

/// How many records are staged once `seen` books were visited.
pub open spec fn staged_after(seen: int, cursor: int, batch_capacity: int) -> int {
    if seen <= cursor {
        0
    } else if seen - cursor <= batch_capacity {
        seen - cursor
    } else {
        batch_capacity
    }
}

/// A pass stages the books from its cursor on, each in the slot of its place
/// after the cursor, as many as fit, and no others. What a visit is promised
/// to do takes a pass from one book to the next.
pub proof fn law_pass_stages_its_batch(pass: WalkPass, cursor: usize, batch_capacity: usize)
    requires
        pass.batch_len == staged_after(pass.seen as int, cursor as int, batch_capacity as int),
    ensures
        ({
            let slot = if pass.seen >= cursor && pass.batch_len < batch_capacity {
                Some(pass.batch_len as int)
            } else {
                None
            };
            &&& slot == slot_of(pass.seen as int, cursor as int, batch_capacity as int)
            &&& pass.batch_len + (if slot is Some { 1int } else { 0 }) == staged_after(
                pass.seen + 1,
                cursor as int,
                batch_capacity as int,
            )
        }),
        staged_after(0, cursor as int, batch_capacity as int) == 0,
{
}

/// A pass behind one more entry, and the batch slot the entry goes to.
pub open spec fn visited(pass: WalkPass, cursor: int, batch_capacity: int, entry: WalkEntry) -> (WalkPass, Option<usize>) {
    let taken = pass.seen >= cursor && pass.batch_len < batch_capacity;
    (
        WalkPass {
            seen: (pass.seen + 1) as usize,
            batch_len: if taken { (pass.batch_len + 1) as usize } else { pass.batch_len },
            fingerprint: folded(pass.fingerprint, entry_bytes(entry)),
        },
        if taken { Some(pass.batch_len) } else { None },
    )
}

/// Every entry counts and is folded in, in or out of the batch. Those before
/// the cursor are passed over; those behind it fill the batch from its first
/// slot on, each the next slot, until it is full.
pub proof fn law_batch_is_filled_in_order(pass: WalkPass, cursor: int, batch_capacity: int, entry: WalkEntry, next: WalkEntry)
    requires
        pass.seen + 1 < usize::MAX,
        pass.batch_len <= batch_capacity <= usize::MAX,
    ensures
        ({
            let (behind, slot) = visited(pass, cursor, batch_capacity, entry);
            &&& behind.seen == pass.seen + 1
            &&& behind.fingerprint == folded(pass.fingerprint, entry_bytes(entry))
            &&& pass.seen < cursor ==> slot is None
            &&& pass.batch_len == batch_capacity ==> slot is None
            &&& pass.seen >= cursor && pass.batch_len < batch_capacity ==> slot == Some(
                pass.batch_len,
            )
            &&& slot is None ==> behind.batch_len == pass.batch_len
            &&& slot matches Some(at) ==> at < behind.batch_len <= batch_capacity && (visited(
                behind,
                cursor,
                batch_capacity,
                next,
            ).1 matches Some(other) ==> other == at + 1)
        }),
{
}

} // verus!
