//! What a message on the wire carries.

use vstd::prelude::*;

verus! {

/// The frames of a message, one after another.
pub open spec fn concat_frames(frames: Seq<Seq<u8>>) -> Seq<u8>
    decreases frames.len(),
{
    if frames.len() == 0 {
        Seq::empty()
    } else {
        concat_frames(frames.drop_last()) + frames.last()
    }
}

/// A message of one frame carries that frame's bytes.
pub proof fn lemma_single_frame(frame: Seq<u8>)
    ensures
        concat_frames(seq![frame]) == frame,
{
    let frames = seq![frame];
    assert(frames.drop_last() =~= Seq::<Seq<u8>>::empty());
    assert(concat_frames(frames.drop_last()) == Seq::<u8>::empty());
    assert(frames.last() == frame);
    assert(Seq::<u8>::empty() + frame =~= frame);
}

/// The payload of frames `a` followed by frames `b` is the payload of `a`
/// followed by the payload of `b`: frames are read in order, each whole.
pub proof fn lemma_concat_frames_append(a: Seq<Seq<u8>>, b: Seq<Seq<u8>>)
    ensures
        concat_frames(a + b) == concat_frames(a) + concat_frames(b),
    decreases b.len(),
{
    if b.len() == 0 {
        assert(a + b =~= a);
        assert(concat_frames(a) + Seq::<u8>::empty() =~= concat_frames(a));
    } else {
        lemma_concat_frames_append(a, b.drop_last());
        assert((a + b).drop_last() =~= a + b.drop_last());
        assert((a + b).last() == b.last());
        assert(concat_frames(a + b) == concat_frames(a + b.drop_last()) + b.last());
        assert(concat_frames(a) + concat_frames(b.drop_last()) + b.last() =~= concat_frames(a) + (concat_frames(b.drop_last()) + b.last()));
    }
}

/// The payload of a message holds each frame's bytes in frame order: frame
/// `k` starts where the frames before it end.
pub proof fn lemma_concat_frames_positions(frames: Seq<Seq<u8>>, k: int, j: int)
    requires
        0 <= k < frames.len(),
        0 <= j < frames[k].len(),
    ensures
        concat_frames(frames.take(k)).len() + j < concat_frames(frames).len(),
        concat_frames(frames)[concat_frames(frames.take(k)).len() + j] == frames[k][j],
{
    let head = frames.take(k);
    let rest = frames.skip(k + 1);
    assert(frames =~= head + seq![frames[k]] + rest);
    lemma_concat_frames_append(head + seq![frames[k]], rest);
    lemma_concat_frames_append(head, seq![frames[k]]);
    lemma_single_frame(frames[k]);
}

/// The bytes that a received message encodes: a single frame as it is, several
/// frames read one after another.
pub fn message_payload(frames: &Vec<Vec<u8>>) -> (payload: Vec<u8>)
    ensures
        payload@ == concat_frames(frames.deep_view()),
{
    let ghost all = frames.deep_view();
    let mut payload: Vec<u8> = Vec::new();
    let mut i: usize = 0;
    while i < frames.len()
        invariant
            all == frames.deep_view(),
            i <= frames@.len(),
            payload@ == concat_frames(all.take(i as int)),
        decreases frames.len() - i,
    {
        proof {
            assert(all.take(i + 1).drop_last() =~= all.take(i as int));
            assert(all.take(i + 1).last() == frames@[i as int]@);
        }
        let mut j: usize = 0;
        let ghost before = payload@;
        while j < frames[i].len()
            invariant
                i < frames@.len(),
                j <= frames@[i as int]@.len(),
                payload@ == before + frames@[i as int]@.take(j as int),
            decreases frames@[i as int]@.len() - j,
        {
            payload.push(frames[i][j]);
            proof {
                assert(frames@[i as int]@.take(j + 1) =~= frames@[i as int]@.take(j as int).push(frames@[i as int]@[j as int]));
                assert(payload@ =~= before + frames@[i as int]@.take(j + 1));
            }
            j = j + 1;
        }
        proof {
            assert(frames@[i as int]@.take(j as int) =~= frames@[i as int]@);
        }
        i = i + 1;
    }
    proof {
        assert(all.take(i as int) =~= all);
    }
    payload
}

} // verus!
