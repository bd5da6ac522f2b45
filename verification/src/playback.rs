use vstd::prelude::*;

verus! {

/// The block that the output device is handed: where a processed buffer
/// arrived, its samples as far as they reach, then silence; where none
/// arrived, silence throughout.
pub open spec fn spec_output_block<T>(received: Option<Seq<T>>, len: nat, silence: T) -> Seq<T> {
    Seq::new(
        len,
        |i: int|
            match received {
                Some(samples) => if i < samples.len() { samples[i] } else { silence },
                None => silence,
            },
    )
}

/// Fills one block of the output device from the processed buffer that was
/// received for it, if any. Samples that do not fit in the block are dropped;
/// the part of the block that the buffer does not reach, or the whole block
/// when nothing was received, is set to `silence`. Every slot is written, so no
/// earlier block is ever played again.
pub fn fill_output<T: Copy>(received: Option<&[T]>, output: &mut [T], silence: T)
    ensures
        final(output)@ == spec_output_block(
            match received {
                Some(s) => Some(s@),
                None => None,
            },
            old(output)@.len(),
            silence,
        ),
        final(output)@.len() == old(output)@.len(),
        forall|i: int|
            0 <= i < old(output)@.len() ==> #[trigger] final(output)@[i] == match received {
                Some(s) => if i < s@.len() { s@[i] } else { silence },
                None => silence,
            },
        received matches Some(s) ==> (s@.len() == old(output)@.len() ==> final(output)@ == s@),
{
    let len = output.len();
    let ghost rec: Option<Seq<T>> = match received {
        Some(s) => Some(s@),
        None => None,
    };
    let n: usize = match received {
        Some(samples) => if samples.len() < len { samples.len() } else { len },
        None => 0,
    };
    let mut i: usize = 0;
    while i < len
        invariant
            len == output@.len(),
            len == old(output)@.len(),
            n <= len,
            n == (match received {
                Some(samples) => if samples@.len() < len { samples@.len() } else { len as nat },
                None => 0,
            }),
            rec == (match received {
                Some(s) => Some(s@),
                None => None,
            }),
            i <= len,
            forall|j: int| 0 <= j < i ==> output@[j] == #[trigger] spec_output_block(rec, len as nat, silence)[j],
        decreases len - i,
    {
        let value: T = if i < n {
            match received {
                Some(samples) => samples[i],
                None => silence,
            }
        } else {
            silence
        };
        output[i] = value;
        i = i + 1;
    }
    assert(output@ =~= spec_output_block(rec, len as nat, silence));
    proof {
        lemma_output_block(rec, len as nat, silence);
    }
}

/// What a block holds, stated slot by slot: it is as long as the device asked
/// for; where a buffer of `m` samples arrived, slot `i` holds the buffer's
/// sample `i` for every `i < min(m, len)` and silence in every other slot; where
/// nothing arrived, every slot is silence. In particular a buffer exactly as
/// long as the block is played unchanged, a longer one is cut to its first
/// `len` samples, and a shorter one is played whole and then padded.
pub proof fn lemma_output_block<T>(received: Option<Seq<T>>, len: nat, silence: T)
    ensures
        spec_output_block(received, len, silence).len() == len,
        forall|i: int|
            0 <= i < len ==> (#[trigger] spec_output_block(received, len, silence)[i]) == match received {
                Some(s) => if i < s.len() { s[i] } else { silence },
                None => silence,
            },
        received matches Some(s) ==> (s.len() == len ==> spec_output_block(received, len, silence) == s),
        received matches Some(s) ==> (s.len() >= len ==> spec_output_block(received, len, silence) == s.take(len as int)),
        received matches Some(s) ==> (s.len() <= len ==> spec_output_block(received, len, silence) == s + Seq::new(
            (len - s.len()) as nat,
            |j: int| silence,
        )),
        received is None ==> spec_output_block(received, len, silence) == Seq::new(len, |j: int| silence),
{
    let b = spec_output_block(received, len, silence);
    match received {
        Some(s) => {
            if s.len() >= len {
                assert(b =~= s.take(len as int));
            }
            if s.len() <= len {
                assert(b =~= s + Seq::new((len - s.len()) as nat, |j: int| silence));
            }
            if s.len() == len {
                assert(b =~= s);
            }
        },
        None => {
            assert(b =~= Seq::new(len, |j: int| silence));
        },
    }
}

} // verus!
