//! The output sink's computation: the lines to emit, one path per line, in
//! sequence order. Writing them to the console or to a file is the
//! caller's concern.

use vstd::prelude::*;

use crate::record::MyFile;

verus! {

/// The paths of the surviving records, in order: exactly the lines the
/// sink emits, one per record. An empty input yields no line at all.
pub fn output_lines(files: &Vec<&MyFile>) -> (r: Vec<String>)
    ensures
        r.deep_view() == files@.map_values(|f: &MyFile| f.path@),
{
    let mut out: Vec<String> = Vec::new();
    let mut i: usize = 0;
    while i < files.len()
        invariant
            i <= files.len(),
            out.deep_view() == files@.take(i as int).map_values(|f: &MyFile| f.path@),
        decreases files.len() - i,
    {
        let f = files[i];
        let ghost prev = out@;
        out.push(f.path.clone());
        proof {
            let m = |f: &MyFile| f.path@;
            let next = files@.take(i as int + 1).map_values(m);
            assert(prev.len() == i as int) by {
                assert(files@.take(i as int).map_values(m).len() == i as int);
            }
            assert(out@.len() == i as int + 1);
            assert(out@[i as int]@ == f.path@);
            assert(out.deep_view().len() == next.len());
            assert forall|j: int| 0 <= j < next.len() implies out.deep_view()[j] == next[j] by {
                assert(out.deep_view()[j] == out@[j]@);
                if j < i as int {
                    assert(out@[j] == prev[j]);
                    assert(prev[j]@ == files@.take(i as int).map_values(m)[j]);
                    assert(files@.take(i as int)[j] == files@[j]);
                }
                assert(files@.take(i as int + 1)[j] == files@[j]);
            }
            assert(out.deep_view() =~= next);
        }
        i = i + 1;
    }
    proof {
        assert(files@.take(files@.len() as int) =~= files@);
    }
    out
}

} // verus!
