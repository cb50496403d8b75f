//! Framing of JSON output: objects that were serialised one by one are put
//! together as JSON lines or as an array.

use vstd::prelude::*;

verus! {

/// The objects one after the other, each followed by a line feed.
pub open spec fn json_lines_of(objects: Seq<Seq<u8>>) -> Seq<u8>
    decreases objects.len(),
{
    if objects.len() == 0 {
        Seq::empty()
    } else {
        json_lines_of(objects.drop_last()) + objects.last() + seq![10u8]
    }
}

/// The objects with a comma between each two.
pub open spec fn comma_separated(objects: Seq<Seq<u8>>) -> Seq<u8>
    decreases objects.len(),
{
    if objects.len() == 0 {
        Seq::empty()
    } else if objects.len() == 1 {
        objects[0]
    } else {
        comma_separated(objects.drop_last()) + seq![44u8] + objects.last()
    }
}

/// The objects as an array: in square brackets, with a comma between each
/// two.
pub open spec fn json_array_of(objects: Seq<Seq<u8>>) -> Seq<u8> {
    seq![91u8] + comma_separated(objects) + seq![93u8]
}

/// The contents of the objects.
pub open spec fn bytes_of(objects: Seq<Vec<u8>>) -> Seq<Seq<u8>> {
    objects.map_values(|o: Vec<u8>| o@)
}

/// Every line of JSON lines ends with a line feed: the output is empty or
/// ends with one, and holds one line feed more than the objects do.
pub proof fn lemma_json_lines_end(objects: Seq<Seq<u8>>)
    ensures
        objects.len() > 0 ==> json_lines_of(objects).len() > 0 && json_lines_of(objects).last() == 10u8,
        objects.len() == 0 ==> json_lines_of(objects).len() == 0,
{
}

/// The objects as JSON lines: exactly one object on each line.
pub fn json_lines(objects: &Vec<Vec<u8>>) -> (r: Vec<u8>)
    ensures
        r@ == json_lines_of(bytes_of(objects@)),
{
    let mut out: Vec<u8> = Vec::new();
    let mut i: usize = 0;
    proof {
        assert(bytes_of(objects@).take(0) == Seq::<Seq<u8>>::empty());
    }
    while i < objects.len()
        invariant
            i <= objects@.len(),
            out@ == json_lines_of(bytes_of(objects@).take(i as int)),
        decreases objects@.len() - i,
    {
        proof {
            assert(bytes_of(objects@).take(i + 1).drop_last() == bytes_of(objects@).take(i as int));
            assert(bytes_of(objects@).take(i + 1).last() == objects@[i as int]@);
        }
        let mut object = objects[i].clone();
        out.append(&mut object);
        out.push(10);
        i += 1;
    }
    proof {
        assert(bytes_of(objects@).take(objects@.len() as int) == bytes_of(objects@));
    }
    out
}

/// The objects as a JSON array without spaces.
pub fn json_array(objects: &Vec<Vec<u8>>) -> (r: Vec<u8>)
    ensures
        r@ == json_array_of(bytes_of(objects@)),
{
    let mut out: Vec<u8> = Vec::new();
    out.push(91);
    let ghost mut inner: Seq<u8> = Seq::empty();
    let mut i: usize = 0;
    proof {
        assert(bytes_of(objects@).take(0) == Seq::<Seq<u8>>::empty());
    }
    while i < objects.len()
        invariant
            i <= objects@.len(),
            inner == comma_separated(bytes_of(objects@).take(i as int)),
            out@ == seq![91u8] + inner,
        decreases objects@.len() - i,
    {
        proof {
            assert(bytes_of(objects@).take(i + 1).drop_last() == bytes_of(objects@).take(i as int));
            assert(bytes_of(objects@).take(i + 1).last() == objects@[i as int]@);
            if i == 1 {
                assert(bytes_of(objects@).take(1)[0] == bytes_of(objects@).take(2)[0]);
            }
        }
        if i > 0 {
            out.push(44);
        }
        let mut object = objects[i].clone();
        out.append(&mut object);
        proof {
            if i == 0 {
                inner = objects@[0]@;
                assert(bytes_of(objects@).take(1)[0] == objects@[0]@);
                assert(seq![91u8] + Seq::<u8>::empty() + objects@[0]@ == seq![91u8] + objects@[0]@);
            } else {
                let before = inner;
                inner = inner + seq![44u8] + objects@[i as int]@;
                assert(seq![91u8] + before + seq![44u8] + objects@[i as int]@ == seq![91u8] + inner);
            }
        }
        i += 1;
    }
    out.push(93);
    proof {
        assert(bytes_of(objects@).take(objects@.len() as int) == bytes_of(objects@));
    }
    out
}

} // verus!
