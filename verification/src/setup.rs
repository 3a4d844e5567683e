use vstd::prelude::*;

use crate::frame::{frame, le_val, lemma_frame_decomp, push_frame, read_frame};
use crate::hex::bytes_eq;

verus! {

/// The composite setup bundle of a single circuit: base and derived
/// polynomial storages, the verification key, the Merkle-tree commitment
/// over the setup, the two copy hints, and the prover finalization hints.
/// Each field holds the serialized bytes of one component; the store never
/// interprets any of them, it only guarantees that the bundle read back is
/// structurally identical to the bundle written.
#[derive(Debug, Clone, PartialEq, Eq)]
pub struct ProverSetupData {
    pub setup_base: Vec<u8>,
    pub setup: Vec<u8>,
    pub vk: Vec<u8>,
    pub setup_tree: Vec<u8>,
    pub vars_hint: Vec<u8>,
    pub wits_hint: Vec<u8>,
    pub finalization_hint: Vec<u8>,
}

/// Every component's length fits in its eight length bytes.  Holds of every
/// bundle an execution can build; only an unbounded ghost bundle can break
/// it.
pub open spec fn setup_wf(d: ProverSetupData) -> bool {
    d.setup_base@.len() < 0x10000000000000000 && d.setup@.len() < 0x10000000000000000
        && d.vk@.len() < 0x10000000000000000 && d.setup_tree@.len() < 0x10000000000000000
        && d.vars_hint@.len() < 0x10000000000000000 && d.wits_hint@.len() < 0x10000000000000000
        && d.finalization_hint@.len() < 0x10000000000000000
}

/// Dense binary layout of a bundle: the seven components in order, each as
/// a length-prefixed frame.
pub open spec fn setup_bytes(d: ProverSetupData) -> Seq<u8> {
    frame(d.setup_base@) + (frame(d.setup@) + (frame(d.vk@) + (frame(d.setup_tree@) + (frame(
        d.vars_hint@,
    ) + (frame(d.wits_hint@) + frame(d.finalization_hint@))))))
}

/// Encodes a bundle into its dense binary form.
pub fn encode_setup_data(d: &ProverSetupData) -> (out: Vec<u8>)
    ensures
        out@ == setup_bytes(*d),
{
    let mut out: Vec<u8> = Vec::new();
    push_frame(&mut out, &d.setup_base);
    push_frame(&mut out, &d.setup);
    push_frame(&mut out, &d.vk);
    push_frame(&mut out, &d.setup_tree);
    push_frame(&mut out, &d.vars_hint);
    push_frame(&mut out, &d.wits_hint);
    push_frame(&mut out, &d.finalization_hint);
    assert(out@ =~= setup_bytes(*d));
    out
}

/// Positions and contents of the seven frames inside an encoded bundle.
pub proof fn lemma_setup_bytes_frames(d: ProverSetupData)
    requires
        setup_wf(d),
    ensures
        ({
            let s = setup_bytes(d);
            let e1 = 8 + d.setup_base@.len() as int;
            let e2 = e1 + 8 + d.setup@.len();
            let e3 = e2 + 8 + d.vk@.len();
            let e4 = e3 + 8 + d.setup_tree@.len();
            let e5 = e4 + 8 + d.vars_hint@.len();
            let e6 = e5 + 8 + d.wits_hint@.len();
            let e7 = e6 + 8 + d.finalization_hint@.len();
            s.len() == e7 && le_val(s.subrange(0, 8)) == d.setup_base@.len() && s.subrange(8, e1)
                == d.setup_base@ && le_val(s.subrange(e1, e1 + 8)) == d.setup@.len()
                && s.subrange(e1 + 8, e2) == d.setup@ && le_val(s.subrange(e2, e2 + 8))
                == d.vk@.len() && s.subrange(e2 + 8, e3) == d.vk@ && le_val(
                s.subrange(e3, e3 + 8),
            ) == d.setup_tree@.len() && s.subrange(e3 + 8, e4) == d.setup_tree@ && le_val(
                s.subrange(e4, e4 + 8),
            ) == d.vars_hint@.len() && s.subrange(e4 + 8, e5) == d.vars_hint@ && le_val(
                s.subrange(e5, e5 + 8),
            ) == d.wits_hint@.len() && s.subrange(e5 + 8, e6) == d.wits_hint@ && le_val(
                s.subrange(e6, e6 + 8),
            ) == d.finalization_hint@.len() && s.subrange(e6 + 8, e7) == d.finalization_hint@
        }),
{
    let s = setup_bytes(d);
    let e1 = 8 + d.setup_base@.len() as int;
    let e2 = e1 + 8 + d.setup@.len();
    let e3 = e2 + 8 + d.vk@.len();
    let e4 = e3 + 8 + d.setup_tree@.len();
    let e5 = e4 + 8 + d.vars_hint@.len();
    let e6 = e5 + 8 + d.wits_hint@.len();
    let e7 = e6 + 8 + d.finalization_hint@.len();
    let r1 = frame(d.setup@) + (frame(d.vk@) + (frame(d.setup_tree@) + (frame(d.vars_hint@)
        + (frame(d.wits_hint@) + frame(d.finalization_hint@)))));
    let r2 = frame(d.vk@) + (frame(d.setup_tree@) + (frame(d.vars_hint@) + (frame(d.wits_hint@)
        + frame(d.finalization_hint@))));
    let r3 = frame(d.setup_tree@) + (frame(d.vars_hint@) + (frame(d.wits_hint@) + frame(
        d.finalization_hint@,
    )));
    let r4 = frame(d.vars_hint@) + (frame(d.wits_hint@) + frame(d.finalization_hint@));
    let r5 = frame(d.wits_hint@) + frame(d.finalization_hint@);
    let r6 = frame(d.finalization_hint@);
    let r7 = Seq::<u8>::empty();
    assert(s.subrange(0, s.len() as int) =~= frame(d.setup_base@) + r1);
    lemma_frame_decomp(s, 0, d.setup_base@, r1);
    lemma_frame_decomp(s, e1, d.setup@, r2);
    lemma_frame_decomp(s, e2, d.vk@, r3);
    lemma_frame_decomp(s, e3, d.setup_tree@, r4);
    lemma_frame_decomp(s, e4, d.vars_hint@, r5);
    lemma_frame_decomp(s, e5, d.wits_hint@, r6);
    assert(r6 + r7 =~= r6);
    lemma_frame_decomp(s, e6, d.finalization_hint@, r7);
}

/// The binary form determines the bundle: equal encodings carry equal
/// components.  With the decoder's exactness this is the round-trip
/// guarantee: decoding an encoding yields the encoded bundle and no other.
pub proof fn lemma_setup_bytes_injective(d1: ProverSetupData, d2: ProverSetupData)
    requires
        setup_wf(d1),
        setup_wf(d2),
        setup_bytes(d1) == setup_bytes(d2),
    ensures
        d1.setup_base@ == d2.setup_base@,
        d1.setup@ == d2.setup@,
        d1.vk@ == d2.vk@,
        d1.setup_tree@ == d2.setup_tree@,
        d1.vars_hint@ == d2.vars_hint@,
        d1.wits_hint@ == d2.wits_hint@,
        d1.finalization_hint@ == d2.finalization_hint@,
{
    lemma_setup_bytes_frames(d1);
    lemma_setup_bytes_frames(d2);
}

/// What a byte string decodes to: the unique well-formed bundle whose
/// encoding it is, if any.
pub open spec fn setup_bytes_parse(s: Seq<u8>) -> Option<ProverSetupData> {
    if exists|d: ProverSetupData| setup_wf(d) && s == setup_bytes(d) {
        Some(choose|d: ProverSetupData| setup_wf(d) && s == setup_bytes(d))
    } else {
        None
    }
}

/// Round-trip: the encoding of a bundle parses back to a bundle with
/// exactly the same components.
pub proof fn lemma_setup_round_trip(d: ProverSetupData)
    requires
        setup_wf(d),
    ensures
        ({
            match setup_bytes_parse(setup_bytes(d)) {
                Some(d2) => d2.setup_base@ == d.setup_base@ && d2.setup@ == d.setup@ && d2.vk@
                    == d.vk@ && d2.setup_tree@ == d.setup_tree@ && d2.vars_hint@ == d.vars_hint@
                    && d2.wits_hint@ == d.wits_hint@ && d2.finalization_hint@
                    == d.finalization_hint@,
                None => false,
            }
        }),
{
    let s = setup_bytes(d);
    assert(setup_wf(d) && s == setup_bytes(d));
    let d2 = choose|d2: ProverSetupData| setup_wf(d2) && s == setup_bytes(d2);
    lemma_setup_bytes_injective(d2, d);
}

/// Decodes a dense binary bundle.  Succeeds exactly on the byte strings
/// that `encode_setup_data` produces, and returns exactly the bundle that
/// was encoded; truncated, padded or otherwise malformed bytes are
/// rejected.
pub fn decode_setup_data(bytes: &Vec<u8>) -> (r: Option<ProverSetupData>)
    ensures
        match r {
            Some(d) => bytes@ == setup_bytes(d),
            None => forall|d: ProverSetupData| setup_wf(d) ==> bytes@ != setup_bytes(d),
        },
{
    let c1 = match read_frame(bytes, 0) {
        Some(p) => p,
        None => {
            proof {
                assert forall|d: ProverSetupData| setup_wf(d) implies bytes@ != setup_bytes(d) by {
                    if bytes@ == setup_bytes(d) {
                        lemma_setup_bytes_frames(d);
                    }
                }
            }
            return None;
        },
    };
    let c2 = match read_frame(bytes, c1.1) {
        Some(p) => p,
        None => {
            proof {
                assert forall|d: ProverSetupData| setup_wf(d) implies bytes@ != setup_bytes(d) by {
                    if bytes@ == setup_bytes(d) {
                        lemma_setup_bytes_frames(d);
                    }
                }
            }
            return None;
        },
    };
    let c3 = match read_frame(bytes, c2.1) {
        Some(p) => p,
        None => {
            proof {
                assert forall|d: ProverSetupData| setup_wf(d) implies bytes@ != setup_bytes(d) by {
                    if bytes@ == setup_bytes(d) {
                        lemma_setup_bytes_frames(d);
                    }
                }
            }
            return None;
        },
    };
    let c4 = match read_frame(bytes, c3.1) {
        Some(p) => p,
        None => {
            proof {
                assert forall|d: ProverSetupData| setup_wf(d) implies bytes@ != setup_bytes(d) by {
                    if bytes@ == setup_bytes(d) {
                        lemma_setup_bytes_frames(d);
                    }
                }
            }
            return None;
        },
    };
    let c5 = match read_frame(bytes, c4.1) {
        Some(p) => p,
        None => {
            proof {
                assert forall|d: ProverSetupData| setup_wf(d) implies bytes@ != setup_bytes(d) by {
                    if bytes@ == setup_bytes(d) {
                        lemma_setup_bytes_frames(d);
                    }
                }
            }
            return None;
        },
    };
    let c6 = match read_frame(bytes, c5.1) {
        Some(p) => p,
        None => {
            proof {
                assert forall|d: ProverSetupData| setup_wf(d) implies bytes@ != setup_bytes(d) by {
                    if bytes@ == setup_bytes(d) {
                        lemma_setup_bytes_frames(d);
                    }
                }
            }
            return None;
        },
    };
    let c7 = match read_frame(bytes, c6.1) {
        Some(p) => p,
        None => {
            proof {
                assert forall|d: ProverSetupData| setup_wf(d) implies bytes@ != setup_bytes(d) by {
                    if bytes@ == setup_bytes(d) {
                        lemma_setup_bytes_frames(d);
                    }
                }
            }
            return None;
        },
    };
    if c7.1 != bytes.len() {
        proof {
            assert forall|d: ProverSetupData| setup_wf(d) implies bytes@ != setup_bytes(d) by {
                if bytes@ == setup_bytes(d) {
                    lemma_setup_bytes_frames(d);
                }
            }
        }
        return None;
    }
    let cand = ProverSetupData {
        setup_base: c1.0,
        setup: c2.0,
        vk: c3.0,
        setup_tree: c4.0,
        vars_hint: c5.0,
        wits_hint: c6.0,
        finalization_hint: c7.0,
    };
    let enc = encode_setup_data(&cand);
    if bytes_eq(&enc, bytes) {
        Some(cand)
    } else {
        proof {
            assert forall|d: ProverSetupData| setup_wf(d) implies bytes@ != setup_bytes(d) by {
                if bytes@ == setup_bytes(d) {
                    lemma_setup_bytes_frames(d);
                    assert(setup_bytes(cand) == setup_bytes(d));
                    assert(enc@ == bytes@);
                }
            }
        }
        None
    }
}

} // verus!
