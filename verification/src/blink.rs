//! LED blinking: the on/off rhythm and the pin steps that play it.
use vstd::prelude::*;

verus! {

/// One step of driving an output pin: the level to set, then how long to
/// keep it before the next step.
#[derive(Debug, Clone, Copy, PartialEq, Eq, Structural)]
pub struct PinStep {
    pub high: bool,
    pub delay: u32,
}

/// The default rhythm, in milliseconds: on and off times by turns,
/// starting with an on time.
pub open spec fn rhythm() -> Seq<u32> {
    seq![
        100, 400, 100, 400, 100, 400, 100, 400,
        100, 200, 100, 200, 100, 200, 100, 200,
        300, 200, 300, 200, 300, 200, 300, 200,
        100, 150, 100, 150, 100, 150, 100, 150,
        500, 500, 300, 200, 300, 200, 500, 500,
        100, 150, 100, 150, 100, 150, 100, 150,
        100, 400, 100, 400, 100, 400, 100, 400,
    ]
}

/// The default rhythm (see [`rhythm`]): an entrance, three accents, a
/// culmination, a repeat and an ending, four on/off pairs each.
pub fn default_seq() -> (r: [u32; 56])
    ensures
        r@ == rhythm(),
{
    let r: [u32; 56] = [
        100, 400, 100, 400, 100, 400, 100, 400,
        100, 200, 100, 200, 100, 200, 100, 200,
        300, 200, 300, 200, 300, 200, 300, 200,
        100, 150, 100, 150, 100, 150, 100, 150,
        500, 500, 300, 200, 300, 200, 500, 500,
        100, 150, 100, 150, 100, 150, 100, 150,
        100, 400, 100, 400, 100, 400, 100, 400,
    ];
    assert(r@ =~= rhythm());
    r
}

/// The steps that blink an LED once through `states`: the `i`-th step
/// holds the level for `states[i]` milliseconds, on for even `i` and off
/// for odd `i`.
pub fn blink_steps(states: &[u32]) -> (v: Vec<PinStep>)
    ensures
        v.len() == states.len(),
        forall|i: int| 0 <= i < v.len() ==> #[trigger] v[i] == (PinStep { high: i % 2 == 0, delay: states[i] }),
{
    let mut v: Vec<PinStep> = Vec::new();
    let mut active = true;
    let mut i: usize = 0;
    while i < states.len()
        invariant
            i <= states.len(),
            v.len() == i,
            active == (i % 2 == 0),
            forall|k: int| 0 <= k < i ==> #[trigger] v[k] == (PinStep { high: k % 2 == 0, delay: states[k] }),
        decreases states.len() - i,
    {
        v.push(PinStep { high: active, delay: states[i] });
        active = !active;
        i = i + 1;
    }
    v
}

/// Blinking starts with the LED on and switches the level at every step.
pub proof fn lemma_blink_alternates(states: Seq<u32>, v: Seq<PinStep>)
    requires
        v.len() == states.len(),
        forall|i: int| 0 <= i < v.len() ==> #[trigger] v[i] == (PinStep { high: i % 2 == 0, delay: states[i] }),
    ensures
        v.len() > 0 ==> v[0].high,
        forall|i: int| 0 <= i < v.len() - 1 ==> #[trigger] v[i].high != v[i + 1].high,
{
    assert forall|i: int| 0 <= i < v.len() - 1 implies #[trigger] v[i].high != v[i + 1].high by {
        assert(v[i] == (PinStep { high: i % 2 == 0, delay: states[i] }));
        assert(v[i + 1] == (PinStep { high: (i + 1) % 2 == 0, delay: states[i + 1] }));
    }
}

/// The default rhythm has 28 on/off pairs in seven sections of four:
/// an entrance of on 100 ms / off 400 ms, a first accent of 100/200, a
/// strong accent of 300/200, a normal accent of 100/150, a culmination of
/// 500/500, 300/200, 300/200, 500/500, a repeat of 100/150 and an ending of
/// 100/400. Every on time is 100, 300 or 500 ms.
pub proof fn lemma_default_rhythm()
    ensures
        rhythm().len() == 56,
        forall|k: int| 0 <= k < 4 ==> {
            &&& #[trigger] rhythm()[2 * k] == 100 && rhythm()[2 * k + 1] == 400
            &&& rhythm()[8 + 2 * k] == 100 && rhythm()[9 + 2 * k] == 200
            &&& rhythm()[16 + 2 * k] == 300 && rhythm()[17 + 2 * k] == 200
            &&& rhythm()[24 + 2 * k] == 100 && rhythm()[25 + 2 * k] == 150
            &&& rhythm()[40 + 2 * k] == 100 && rhythm()[41 + 2 * k] == 150
            &&& rhythm()[48 + 2 * k] == 100 && rhythm()[49 + 2 * k] == 400
        },
        rhythm().subrange(32, 40) == seq![500u32, 500, 300, 200, 300, 200, 500, 500],
        forall|i: int| 0 <= i < 28 ==> #[trigger] rhythm()[2 * i] == 100 || rhythm()[2 * i] == 300 || rhythm()[2 * i] == 500,
{
    let r = rhythm();
    assert forall|k: int| 0 <= k < 4 implies {
        &&& #[trigger] r[2 * k] == 100 && r[2 * k + 1] == 400
        &&& r[8 + 2 * k] == 100 && r[9 + 2 * k] == 200
        &&& r[16 + 2 * k] == 300 && r[17 + 2 * k] == 200
        &&& r[24 + 2 * k] == 100 && r[25 + 2 * k] == 150
        &&& r[40 + 2 * k] == 100 && r[41 + 2 * k] == 150
        &&& r[48 + 2 * k] == 100 && r[49 + 2 * k] == 400
    } by {
        assert(k == 0 || k == 1 || k == 2 || k == 3);
    }
    assert(r.subrange(32, 40) =~= seq![500u32, 500, 300, 200, 300, 200, 500, 500]);
    assert forall|i: int| 0 <= i < 28 implies #[trigger] r[2 * i] == 100 || r[2 * i] == 300 || r[2 * i] == 500 by {
        assert(0 <= i < 28);
    }
}

} // verus!
