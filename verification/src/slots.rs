//! Per-image result tables: one slot per detected region, filled as
//! recognition results arrive in any order, then read back in detection order.

use vstd::prelude::*;
use crate::config::Float32;
use crate::text::{decimal, usize_to_decimal};

verus! {

/// The values of the filled slots, in slot order.
pub open spec fn present_values<T>(slots: Seq<Option<T>>) -> Seq<T>
    decreases slots.len(),
{
    if slots.len() == 0 {
        seq![]
    } else {
        let rest = present_values(slots.drop_last());
        match slots.last() {
            Some(v) => rest.push(v),
            None => rest,
        }
    }
}

/// The rows of a table, each as the sequence of its slots.
pub open spec fn table_view<T>(t: Seq<Vec<Option<T>>>) -> Seq<Seq<Option<T>>> {
    t.map_values(|row: Vec<Option<T>>| row@)
}

/// `t` with slot `slot` of row `image` filled with `v`, when that slot exists.
pub open spec fn placed<T>(t: Seq<Seq<Option<T>>>, image: int, slot: int, v: T) -> Seq<
    Seq<Option<T>>,
> {
    if 0 <= image < t.len() && 0 <= slot < t[image].len() {
        t.update(image, t[image].update(slot, Some(v)))
    } else {
        t
    }
}

/// A table with one row per image and `counts[i]` empty slots in row `i`.
pub fn empty_slots<T>(counts: &Vec<usize>) -> (table: Vec<Vec<Option<T>>>)
    ensures
        table@.len() == counts@.len(),
        forall|i: int|
            0 <= i < table@.len() ==> (#[trigger] table@[i])@.len() == counts@[i] && forall|j: int|
                0 <= j < table@[i]@.len() ==> table@[i]@[j] is None,
{
    let mut table: Vec<Vec<Option<T>>> = Vec::new();
    let mut i: usize = 0;
    while i < counts.len()
        invariant
            i <= counts@.len(),
            table@.len() == i,
            forall|k: int|
                0 <= k < i ==> (#[trigger] table@[k])@.len() == counts@[k] && forall|j: int|
                    0 <= j < table@[k]@.len() ==> table@[k]@[j] is None,
        decreases counts@.len() - i,
    {
        let mut row: Vec<Option<T>> = Vec::new();
        let mut j: usize = 0;
        while j < counts[i]
            invariant
                i < counts@.len(),
                j <= counts@[i as int],
                row@.len() == j,
                forall|k: int| 0 <= k < j ==> row@[k] is None,
            decreases counts@[i as int] - j,
        {
            row.push(None);
            j = j + 1;
        }
        table.push(row);
        i = i + 1;
    }
    table
}

/// Fills slot `slot` of row `image` with `value` when that slot exists;
/// otherwise the table is left as it was.
pub fn place_result<T>(table: &mut Vec<Vec<Option<T>>>, image: usize, slot: usize, value: T)
    ensures
        final(table)@.len() == old(table)@.len(),
        forall|i: int|
            0 <= i < old(table)@.len() && i != image ==> #[trigger] final(table)@[i] == old(
                table,
            )@[i],
        image < old(table)@.len() ==> final(table)@[image as int]@ == (if slot < old(
            table,
        )@[image as int]@.len() {
            old(table)@[image as int]@.update(slot as int, Some(value))
        } else {
            old(table)@[image as int]@
        }),
        table_view(final(table)@) == placed(
            table_view(old(table)@),
            image as int,
            slot as int,
            value,
        ),
{
    if image < table.len() && slot < table[image].len() {
        table[image].set(slot, Some(value));
    }
    assert(table_view(table@) =~= placed(table_view(old(table)@), image as int, slot as int, value));
}

/// A recognized text region: the region as it was cropped (its boxes, its
/// line orientation, ...), the text read in it and the confidence.
#[derive(Debug)]
pub struct RecognizedRegion<R> {
    pub region: R,
    pub text: String,
    pub score: Float32,
}

/// The score reported for entry `i`, or `0.0` when the recognizer gave none.
pub open spec fn score_or_zero(scores: Seq<Float32>, i: int) -> Float32 {
    if 0 <= i < scores.len() {
        scores[i]
    } else {
        Float32 { bits: 0 }
    }
}

/// The smaller of two counts.
pub open spec fn min_count(a: nat, b: nat) -> nat {
    if a <= b { a } else { b }
}

/// The count of placed entries is the smaller of the two counts: never more
/// than either, and equal to one of them.
pub proof fn law_min_count(a: nat, b: nat)
    ensures
        min_count(a, b) <= a,
        min_count(a, b) <= b,
        min_count(a, b) == a || min_count(a, b) == b,
{
}

/// `t` after the first `n` entries of a recognized chunk are placed in turn:
/// entry `i`, the region `chunk[i].2` cropped for slot `chunk[i].1` of image
/// `chunk[i].0`, goes to that slot with text `texts[i]`.
pub open spec fn chunk_placed<R>(
    t: Seq<Seq<Option<RecognizedRegion<R>>>>,
    chunk: Seq<(usize, usize, R)>,
    texts: Seq<String>,
    scores: Seq<Float32>,
    n: nat,
) -> Seq<Seq<Option<RecognizedRegion<R>>>>
    decreases n,
{
    if n == 0 {
        t
    } else {
        let i = (n - 1) as int;
        placed(
            chunk_placed(t, chunk, texts, scores, (n - 1) as nat),
            chunk[i].0 as int,
            chunk[i].1 as int,
            RecognizedRegion { region: chunk[i].2, text: texts[i], score: score_or_zero(scores, i) },
        )
    }
}

proof fn lemma_chunk_placed_shape<R>(
    t: Seq<Seq<Option<RecognizedRegion<R>>>>,
    chunk: Seq<(usize, usize, R)>,
    texts: Seq<String>,
    scores: Seq<Float32>,
    n: nat,
)
    ensures
        chunk_placed(t, chunk, texts, scores, n).len() == t.len(),
        forall|a: int|
            0 <= a < t.len() ==> #[trigger] chunk_placed(t, chunk, texts, scores, n)[a].len()
                == t[a].len(),
    decreases n,
{
    if n > 0 {
        lemma_chunk_placed_shape(t, chunk, texts, scores, (n - 1) as nat);
    }
}

/// Each placed region lands in the slot it was cropped for, with the text
/// and the score of its own position in the chunk (`0.0` when the recognizer
/// reported fewer scores), unless a later entry of the chunk names the same
/// slot.
pub proof fn law_chunk_entry_lands_in_its_slot<R>(
    t: Seq<Seq<Option<RecognizedRegion<R>>>>,
    chunk: Seq<(usize, usize, R)>,
    texts: Seq<String>,
    scores: Seq<Float32>,
    n: nat,
    i: int,
)
    requires
        n <= chunk.len(),
        n <= texts.len(),
        0 <= i < n,
        chunk[i].0 < t.len(),
        chunk[i].1 < t[chunk[i].0 as int].len(),
        forall|j: int|
            i < j < n ==> !(#[trigger] chunk[j].0 == chunk[i].0 && chunk[j].1 == chunk[i].1),
    ensures
        chunk_placed(t, chunk, texts, scores, n)[chunk[i].0 as int][chunk[i].1 as int] == Some(
            RecognizedRegion {
                region: chunk[i].2,
                text: texts[i],
                score: if i < scores.len() {
                    scores[i]
                } else {
                    Float32 { bits: 0 }
                },
            },
        ),
    decreases n,
{
    let m = (n - 1) as nat;
    lemma_chunk_placed_shape(t, chunk, texts, scores, m);
    if i < m {
        law_chunk_entry_lands_in_its_slot(t, chunk, texts, scores, m, i);
        assert(!(chunk[m as int].0 == chunk[i].0 && chunk[m as int].1 == chunk[i].1));
    }
}

/// A slot that no entry of the chunk names keeps what it held.
pub proof fn law_chunk_leaves_other_slots<R>(
    t: Seq<Seq<Option<RecognizedRegion<R>>>>,
    chunk: Seq<(usize, usize, R)>,
    texts: Seq<String>,
    scores: Seq<Float32>,
    n: nat,
    image: int,
    slot: int,
)
    requires
        n <= chunk.len(),
        0 <= image < t.len(),
        0 <= slot < t[image].len(),
        forall|j: int| 0 <= j < n ==> !(#[trigger] chunk[j].0 == image && chunk[j].1 == slot),
    ensures
        chunk_placed(t, chunk, texts, scores, n)[image][slot] == t[image][slot],
    decreases n,
{
    if n > 0 {
        let m = (n - 1) as nat;
        lemma_chunk_placed_shape(t, chunk, texts, scores, m);
        law_chunk_leaves_other_slots(t, chunk, texts, scores, m, image, slot);
        assert(!(chunk[m as int].0 == image && chunk[m as int].1 == slot));
    }
}

/// Places the results of one recognition call: the `i`-th region of the
/// chunk, cropped for slot `chunk[i].1` of image `chunk[i].0`, is stored
/// there with the `i`-th text and score (score `0.0` when missing), for as
/// many regions as there are texts; slots that do not exist are skipped.
pub fn place_recognized_chunk<R>(
    table: &mut Vec<Vec<Option<RecognizedRegion<R>>>>,
    chunk: Vec<(usize, usize, R)>,
    texts: &Vec<String>,
    scores: &Vec<Float32>,
)
    ensures
        table_view(final(table)@) == chunk_placed(
            table_view(old(table)@),
            chunk@,
            texts@,
            scores@,
            min_count(texts@.len(), chunk@.len()),
        ),
        forall|i: int|
            0 <= i < min_count(texts@.len(), chunk@.len()) && chunk@[i].0 < old(table)@.len()
                && chunk@[i].1 < old(table)@[chunk@[i].0 as int]@.len() && (forall|j: int|
                i < j < min_count(texts@.len(), chunk@.len()) ==> !(#[trigger] chunk@[j].0
                == chunk@[i].0 && chunk@[j].1 == chunk@[i].1)) ==> final(table)@[
                #[trigger] chunk@[i].0 as int]@[chunk@[i].1 as int] == Some(
                RecognizedRegion {
                    region: chunk@[i].2,
                    text: texts@[i],
                    score: if i < scores@.len() {
                        scores@[i]
                    } else {
                        Float32 { bits: 0 }
                    },
                },
            ),
{
    let ghost entries = chunk@;
    let n = if texts.len() < chunk.len() {
        texts.len()
    } else {
        chunk.len()
    };
    let count = chunk.len();
    let mut i: usize = 0;
    for entry in it: chunk.into_iter()
        invariant
            it.seq() == entries,
            entries.len() == count,
            n == min_count(texts@.len(), entries.len()),
            i == it.index(),
            i <= entries.len(),
            table_view(table@) == chunk_placed(
                table_view(old(table)@),
                entries,
                texts@,
                scores@,
                if i <= n { i as nat } else { n as nat },
            ),
    {
        if i < n {
            let score = if i < scores.len() {
                scores[i]
            } else {
                Float32 { bits: 0 }
            };
            let (image, slot, region) = entry;
            let record = RecognizedRegion { region, text: texts[i].clone(), score };
            place_result(table, image, slot, record);
        }
        assert(i < count);
        i = i + 1;
    }
    proof {
        let ghost m = min_count(texts@.len(), entries.len());
        assert forall|k: int|
            0 <= k < m && entries[k].0 < old(table)@.len() && entries[k].1 < old(
                table,
            )@[entries[k].0 as int]@.len() && (forall|j: int|
                k < j < m ==> !(#[trigger] entries[j].0 == entries[k].0 && entries[j].1
                    == entries[k].1)) implies #[trigger] table@[entries[k].0 as int]@[entries[k].1 as int]
            == Some(
            RecognizedRegion {
                region: entries[k].2,
                text: texts@[k],
                score: if k < scores@.len() {
                    scores@[k]
                } else {
                    Float32 { bits: 0 }
                },
            },
        ) by {
            law_chunk_entry_lands_in_its_slot(
                table_view(old(table)@),
                entries,
                texts@,
                scores@,
                m,
                k,
            );
            lemma_chunk_placed_shape(table_view(old(table)@), entries, texts@, scores@, m);
            assert(table@.len() == old(table)@.len());
            assert(table_view(table@)[entries[k].0 as int] == table@[entries[k].0 as int]@);
        }
    }
}

/// What the pipeline reports for one input image.
#[derive(Debug)]
pub struct ImageResult<R> {
    /// The position of the image in the input.
    pub index: usize,
    /// The name the image is reported under: `image_` and its index.
    pub input_path: String,
    /// The recognized regions of the image, in detection order.
    pub regions: Vec<R>,
}

/// One result per image of `table`, in input order: image `i` is reported as
/// `image_<i>` with the filled slots of its row, in slot order.
pub fn assemble_results<R>(table: Vec<Vec<Option<R>>>) -> (results: Vec<ImageResult<R>>)
    ensures
        results@.len() == table@.len(),
        forall|i: int|
            0 <= i < results@.len() ==> (#[trigger] results@[i]).index == i && results@[i].input_path@
                == "image_"@ + decimal(i as nat) && results@[i].regions@ == present_values(
                table@[i]@,
            ),
{
    let ghost rows = table@;
    let mut results: Vec<ImageResult<R>> = Vec::new();
    let count = table.len();
    let mut index: usize = 0;
    for row in it: table.into_iter()
        invariant
            it.seq() == rows,
            rows.len() == count,
            index == it.index(),
            results@.len() == index,
            forall|i: int|
                0 <= i < index ==> (#[trigger] results@[i]).index == i && results@[i].input_path@
                    == "image_"@ + decimal(i as nat) && results@[i].regions@ == present_values(
                    rows[i]@,
                ),
    {
        let mut input_path = String::from_str("image_");
        let number = usize_to_decimal(index);
        input_path.append(number.as_str());
        let regions = present_results(row);
        results.push(ImageResult { index, input_path, regions });
        assert(index < count);
        index = index + 1;
    }
    results
}

/// The values of the filled slots of `row`, in slot order.
pub fn present_results<T>(row: Vec<Option<T>>) -> (values: Vec<T>)
    ensures
        values@ == present_values(row@),
{
    let ghost slots = row@;
    let mut values: Vec<T> = Vec::new();
    assert(slots.take(0) =~= seq![]);
    for slot in iter: row.into_iter()
        invariant
            iter.seq() == slots,
            values@ == present_values(slots.take(iter.index() as int)),
    {
        let ghost pos = iter.index() as int;
        assert(slots.take(pos + 1).drop_last() =~= slots.take(pos));
        match slot {
            Some(v) => values.push(v),
            None => {},
        }
    }
    assert(slots.take(slots.len() as int) =~= slots);
    values
}

/// Reading back is compositional: the values of two runs of slots placed
/// one after the other are the values of the first run followed by those
/// of the second.
pub proof fn law_present_values_concat<T>(a: Seq<Option<T>>, b: Seq<Option<T>>)
    ensures
        present_values(a + b) == present_values(a) + present_values(b),
    decreases b.len(),
{
    if b.len() == 0 {
        assert(a + b =~= a);
        assert(present_values(a) + present_values(b) =~= present_values(a));
    } else {
        assert((a + b).drop_last() =~= a + b.drop_last());
        assert((a + b).last() == b.last());
        law_present_values_concat(a, b.drop_last());
        match b.last() {
            Some(v) => {
                assert(present_values(a) + present_values(b.drop_last()).push(v) =~= (
                present_values(a) + present_values(b.drop_last())).push(v));
            },
            None => {},
        }
    }
}

/// Filling an empty slot makes its value appear in the read-back, after the
/// values of the slots before it and before those of the slots after it.
pub proof fn law_fill_slot<T>(row: Seq<Option<T>>, slot: int, value: T)
    requires
        0 <= slot < row.len(),
        row[slot] is None,
    ensures
        present_values(row.update(slot, Some(value))) == present_values(row.take(slot)) + seq![
            value,
        ] + present_values(row.skip(slot + 1)),
        present_values(row) == present_values(row.take(slot)) + present_values(row.skip(slot + 1)),
{
    let before = row.take(slot);
    let after = row.skip(slot + 1);
    assert(row.update(slot, Some(value)) =~= (before + seq![Some(value)]) + after);
    assert(row =~= (before + seq![None]) + after);
    law_present_values_concat(before + seq![Some(value)], after);
    law_present_values_concat(before, seq![Some(value)]);
    law_present_values_concat(before + seq![None], after);
    law_present_values_concat(before, seq![None]);
    let one: Seq<Option<T>> = seq![Some(value)];
    let none: Seq<Option<T>> = seq![None];
    assert(one.drop_last() =~= Seq::<Option<T>>::empty());
    assert(none.drop_last() =~= Seq::<Option<T>>::empty());
    assert(one.last() == Some(value));
    assert(present_values(Seq::<Option<T>>::empty()) =~= Seq::<T>::empty());
    assert(present_values(one) =~= seq![value]);
    assert(present_values(none) =~= Seq::<T>::empty());
    assert(present_values(before) + present_values(none) =~= present_values(before));
}

} // verus!
