//! Construction of opcode-indexed lookup tables from ordered masked rules.
//!
//! A rule `(bitmask, match_value, payload)` installs `payload` at every index
//! `i` with `i & bitmask == match_value`. Rules are applied in the order
//! given, so a later rule overrides an earlier one where both apply.
use vstd::prelude::*;

verus! {

/// The table after one rule: `item` wherever the index matches, the old
/// entry elsewhere.
pub open spec fn mask_rule<B>(table: Seq<B>, bitmask: usize, match_value: usize, item: B) -> Seq<
    B,
> {
    Seq::new(
        table.len(),
        |i: int|
            if (i as usize) & bitmask == match_value {
                item
            } else {
                table[i]
            },
    )
}

/// The table after one rule per item, in order: the `k`-th item with match
/// value `base + stride * k`.
pub open spec fn mask_sequence<B>(
    table: Seq<B>,
    bitmask: usize,
    base: usize,
    stride: usize,
    items: Seq<B>,
) -> Seq<B>
    decreases items.len(),
{
    if items.len() == 0 {
        table
    } else {
        let k = items.len() - 1;
        mask_rule(
            mask_sequence(table, bitmask, base, stride, items.take(k)),
            bitmask,
            (base + stride * k) as usize,
            items[k],
        )
    }
}

/// The table after a sequence of rules, stated at once: where the masked
/// index lies `k` strides above the base, for `k` below the number of items,
/// the entry is item `k`.
pub open spec fn stride_rule<B>(
    table: Seq<B>,
    bitmask: usize,
    base: usize,
    stride: usize,
    items: Seq<B>,
) -> Seq<B> {
    Seq::new(
        table.len(),
        |i: int|
            {
                let offset = ((i as usize) & bitmask) - base;
                if offset >= 0 && offset % (stride as int) == 0 && offset / (stride as int)
                    < items.len() {
                    items[offset / (stride as int)]
                } else {
                    table[i]
                }
            },
    )
}

/// With a positive stride, the rules of a sequence never overlap, and
/// applying them in order is the same as placing each item at its own
/// indices.
pub proof fn lemma_stride_rule<B>(
    table: Seq<B>,
    bitmask: usize,
    base: usize,
    stride: usize,
    items: Seq<B>,
)
    requires
        stride > 0,
        items.len() == 0 || base + stride * (items.len() - 1) <= usize::MAX,
    ensures
        mask_sequence(table, bitmask, base, stride, items) == stride_rule(
            table,
            bitmask,
            base,
            stride,
            items,
        ),
    decreases items.len(),
{
    if items.len() > 0 {
        let k = items.len() - 1;
        let front = items.take(k);
        assert(k == 0 || stride * (k - 1) <= stride * k) by (nonlinear_arith)
            requires
                k >= 0,
        ;
        lemma_stride_rule(table, bitmask, base, stride, front);
        let inner = stride_rule(table, bitmask, base, stride, front);
        let outer = mask_rule(inner, bitmask, (base + stride * k) as usize, items[k]);
        let whole = stride_rule(table, bitmask, base, stride, items);
        assert forall|i: int| 0 <= i < table.len() implies outer[i] == whole[i] by {
            let offset = ((i as usize) & bitmask) - base;
            let s = stride as int;
            if offset == s * k {
                assert(offset % s == 0 && offset / s == k) by (nonlinear_arith)
                    requires
                        offset == s * k,
                        s > 0,
                        k >= 0,
                ;
            } else if offset >= 0 && offset % s == 0 {
                assert(offset / s != k) by (nonlinear_arith)
                    requires
                        offset != s * k,
                        offset % s == 0,
                        s > 0,
                ;
            }
        }
        assert(outer =~= whole);
    }
}

/// A table of `SIZE` entries under construction.
pub struct TableBuilder<B, const SIZE: usize> {
    table: Vec<B>,
}

impl<B, const SIZE: usize> TableBuilder<B, SIZE> {
    /// The builder always holds `SIZE` entries.
    #[verifier::type_invariant]
    spec fn holds_size_entries(&self) -> bool {
        self.table@.len() == SIZE
    }
}

impl<B: Copy, const SIZE: usize> TableBuilder<B, SIZE> {
    /// The entries so far.
    pub closed spec fn entries(&self) -> Seq<B> {
        self.table@
    }

    /// A table whose `SIZE` entries all hold `initial`.
    pub fn new(initial: B) -> (r: Self)
        ensures
            r.entries() == Seq::new(SIZE as nat, |i: int| initial),
    {
        let mut table: Vec<B> = Vec::new();
        let mut count: usize = 0;
        while count < SIZE
            invariant
                count <= SIZE,
                table@ == Seq::new(count as nat, |i: int| initial),
            decreases SIZE - count,
        {
            table.push(initial);
            count = count + 1;
            assert(table@ =~= Seq::new(count as nat, |i: int| initial));
        }
        TableBuilder { table }
    }

    /// Applies one rule: `map_item` at every index `i` with
    /// `i & bitmask == match_value`.
    pub fn bitmask_map(self, bitmask: usize, match_value: usize, map_item: B) -> (r: Self)
        ensures
            self.entries().len() == SIZE,
            r.entries() == mask_rule(self.entries(), bitmask, match_value, map_item),
    {
        proof {
            use_type_invariant(&self);
        }
        let mut table = self.table;
        let ghost original = table@;
        let mut count: usize = 0;
        while count < table.len()
            invariant
                table@.len() == original.len(),
                count <= table@.len(),
                forall|i: int|
                    0 <= i < count ==> table@[i] == (if (i as usize) & bitmask == match_value {
                        map_item
                    } else {
                        original[i]
                    }),
                forall|i: int| count <= i < original.len() ==> table@[i] == original[i],
            decreases table@.len() - count,
        {
            if count & bitmask == match_value {
                table.set(count, map_item);
            }
            count = count + 1;
        }
        assert(table@ =~= mask_rule(original, bitmask, match_value, map_item));
        TableBuilder { table }
    }

    /// Applies one rule per item, in order: `map_item[k]` with match value
    /// `match_value + stride * k`.
    pub fn bitmask_map_sequence<const ITEMS: usize>(
        self,
        bitmask: usize,
        match_value: usize,
        stride: usize,
        map_item: [B; ITEMS],
    ) -> (r: Self)
        requires
            ITEMS == 0 || match_value + stride * (ITEMS - 1) <= usize::MAX,
        ensures
            self.entries().len() == SIZE,
            r.entries() == mask_sequence(
                self.entries(),
                bitmask,
                match_value,
                stride,
                map_item@,
            ),
    {
        proof {
            use_type_invariant(&self);
        }
        let ghost original = self.entries();
        let mut builder = self;
        let mut count: usize = 0;
        assert(map_item@.take(0) =~= Seq::<B>::empty());
        while count < ITEMS
            invariant
                count <= ITEMS,
                map_item@.len() == ITEMS,
                ITEMS == 0 || match_value + stride * (ITEMS - 1) <= usize::MAX,
                builder.entries() == mask_sequence(
                    original,
                    bitmask,
                    match_value,
                    stride,
                    map_item@.take(count as int),
                ),
            decreases ITEMS - count,
        {
            assert(stride * count <= stride * (ITEMS - 1)) by (nonlinear_arith)
                requires
                    count < ITEMS,
            ;
            let value = match_value + stride * count;
            builder = builder.bitmask_map(bitmask, value, map_item[count]);
            assert(map_item@.take(count + 1).take(count as int) =~= map_item@.take(count as int));
            count = count + 1;
        }
        assert(map_item@.take(ITEMS as int) =~= map_item@);
        builder
    }

    /// The finished table.
    pub fn build(self) -> (r: Vec<B>)
        ensures
            r@ == self.entries(),
            r@.len() == SIZE,
    {
        proof {
            use_type_invariant(&self);
        }
        self.table
    }
}

} // verus!
