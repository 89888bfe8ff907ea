use vstd::prelude::*;

verus! {

/// Where a parameter-cache session stands.
#[derive(Debug, Clone, Copy, PartialEq, Eq, Structural)]
pub enum CachePhase {
    /// Waiting for the outcome of reading and decoding the cache file.
    Lookup,
    /// Waiting for freshly generated parameters.
    Generate,
    /// Waiting for the outcome of writing the new parameters to the cache file.
    Persist,
    /// Parameters are in hand; nothing more is done.
    Ready,
}

/// Where the parameters in hand came from.
#[derive(Debug, Clone, Copy, PartialEq, Eq, Structural)]
pub enum CacheSource {
    /// Read from the cache file.
    Hit,
    /// Generated, and written to the cache file.
    Generated,
    /// Generated; writing the cache file failed, which is only a warning.
    GeneratedUnsaved,
}

/// What the caller observed after carrying out the last action.
#[derive(Debug, Clone, Copy, PartialEq, Eq, Structural)]
pub enum CacheEvent {
    Loaded,
    LoadFailed,
    Generated,
    Written,
    WriteFailed,
}

/// What the caller is to do next.
#[derive(Debug, Clone, Copy, PartialEq, Eq, Structural)]
pub enum CacheAction {
    /// Read the cache file and decode it into parameters.
    ReadCache,
    /// Generate parameters from the constraint system.
    GenerateParams,
    /// Write the generated parameters to the cache file.
    WriteCache,
    /// Use the parameters in hand.
    UseParams(CacheSource),
}

/// The events that a phase waits for.
pub open spec fn expects(phase: CachePhase, e: CacheEvent) -> bool {
    match phase {
        CachePhase::Lookup => e == CacheEvent::Loaded || e == CacheEvent::LoadFailed,
        CachePhase::Generate => e == CacheEvent::Generated,
        CachePhase::Persist => e == CacheEvent::Written || e == CacheEvent::WriteFailed,
        CachePhase::Ready => false,
    }
}

/// The next phase and action after an expected event. A decoded cache file is
/// used as it is; otherwise parameters are generated, a write is attempted, and
/// they are used whether or not it succeeded.
pub open spec fn transition(phase: CachePhase, e: CacheEvent) -> (CachePhase, CacheAction) {
    match e {
        CacheEvent::Loaded => (CachePhase::Ready, CacheAction::UseParams(CacheSource::Hit)),
        CacheEvent::LoadFailed => (CachePhase::Generate, CacheAction::GenerateParams),
        CacheEvent::Generated => (CachePhase::Persist, CacheAction::WriteCache),
        CacheEvent::Written => (CachePhase::Ready, CacheAction::UseParams(CacheSource::Generated)),
        CacheEvent::WriteFailed => (
            CachePhase::Ready,
            CacheAction::UseParams(CacheSource::GeneratedUnsaved),
        ),
    }
}

/// The final phase and the actions asked for, when every event was expected.
pub open spec fn replay(phase: CachePhase, events: Seq<CacheEvent>) -> Option<
    (CachePhase, Seq<CacheAction>),
>
    decreases events.len(),
{
    if events.len() == 0 {
        Some((phase, Seq::empty()))
    } else if !expects(phase, events[0]) {
        None
    } else {
        let (next, action) = transition(phase, events[0]);
        match replay(next, events.drop_first()) {
            Some((last, actions)) => Some((last, seq![action] + actions)),
            None => None,
        }
    }
}

/// One session of obtaining public parameters through the cache file.
#[derive(Debug)]
pub struct ParameterCache {
    pub phase: CachePhase,
}

impl ParameterCache {
    /// A session that starts by reading the cache file.
    pub fn new() -> (r: (ParameterCache, CacheAction))
        ensures
            r.0.phase == CachePhase::Lookup,
            r.1 == CacheAction::ReadCache,
    {
        (ParameterCache { phase: CachePhase::Lookup }, CacheAction::ReadCache)
    }

    /// Advances the session by one observed event.
    pub fn on_event(&mut self, e: CacheEvent) -> (a: CacheAction)
        requires
            expects(old(self).phase, e),
        ensures
            (final(self).phase, a) == transition(old(self).phase, e),
    {
        let (next, action) = match e {
            CacheEvent::Loaded => (CachePhase::Ready, CacheAction::UseParams(CacheSource::Hit)),
            CacheEvent::LoadFailed => (CachePhase::Generate, CacheAction::GenerateParams),
            CacheEvent::Generated => (CachePhase::Persist, CacheAction::WriteCache),
            CacheEvent::Written => (
                CachePhase::Ready,
                CacheAction::UseParams(CacheSource::Generated),
            ),
            CacheEvent::WriteFailed => (
                CachePhase::Ready,
                CacheAction::UseParams(CacheSource::GeneratedUnsaved),
            ),
        };
        self.phase = next;
        action
    }

    /// Whether the session waits for `e`; a caller checks this before `on_event`.
    pub fn accepts(&self, e: CacheEvent) -> (r: bool)
        ensures
            r == expects(self.phase, e),
    {
        match self.phase {
            CachePhase::Lookup => e == CacheEvent::Loaded || e == CacheEvent::LoadFailed,
            CachePhase::Generate => e == CacheEvent::Generated,
            CachePhase::Persist => e == CacheEvent::Written || e == CacheEvent::WriteFailed,
            CachePhase::Ready => false,
        }
    }
}

/// A session whose cache file decodes uses those parameters at once: it ends
/// after that one event, as a cache hit, and never asks to generate.
pub proof fn lemma_hit_skips_generation(events: Seq<CacheEvent>)
    requires
        events.len() > 0,
        events[0] == CacheEvent::Loaded,
        replay(CachePhase::Lookup, events) is Some,
    ensures
        events.len() == 1,
        replay(CachePhase::Lookup, events) == Some(
            (CachePhase::Ready, seq![CacheAction::UseParams(CacheSource::Hit)]),
        ),
{
    let rest = events.drop_first();
    if rest.len() > 0 {
        assert(!expects(CachePhase::Ready, rest[0]));
        assert(replay(CachePhase::Ready, rest) is None);
    }
    assert(replay(CachePhase::Ready, rest) == Some((CachePhase::Ready, Seq::<CacheAction>::empty())));
    assert(seq![CacheAction::UseParams(CacheSource::Hit)] + Seq::<CacheAction>::empty() =~= seq![
        CacheAction::UseParams(CacheSource::Hit),
    ]);
}

/// A session that cannot use the cache file generates parameters exactly once,
/// then asks to write them, and ends ready to use them whether the write
/// succeeded or not: a complete session takes three events.
pub proof fn lemma_miss_generates_once(events: Seq<CacheEvent>)
    requires
        events.len() > 0,
        events[0] == CacheEvent::LoadFailed,
        replay(CachePhase::Lookup, events) matches Some((CachePhase::Ready, _)),
    ensures
        events.len() == 3,
        replay(CachePhase::Lookup, events) == Some(
            (
                CachePhase::Ready,
                seq![
                    CacheAction::GenerateParams,
                    CacheAction::WriteCache,
                    CacheAction::UseParams(
                        if events[2] == CacheEvent::Written {
                            CacheSource::Generated
                        } else {
                            CacheSource::GeneratedUnsaved
                        },
                    ),
                ],
            ),
        ),
{
    let e1 = events.drop_first();
    assert(e1.len() > 0) by {
        if e1.len() == 0 {
            assert(replay(CachePhase::Generate, e1) == Some((CachePhase::Generate, Seq::<CacheAction>::empty())));
        }
    }
    let e2 = e1.drop_first();
    assert(e2.len() > 0) by {
        if e2.len() == 0 {
            assert(replay(CachePhase::Persist, e2) == Some((CachePhase::Persist, Seq::<CacheAction>::empty())));
        }
    }
    let e3 = e2.drop_first();
    if e3.len() > 0 {
        assert(!expects(CachePhase::Ready, e3[0]));
        assert(replay(CachePhase::Ready, e3) is None);
    }
    assert(e1[0] == events[1]);
    assert(e2[0] == events[2]);
    let last = if events[2] == CacheEvent::Written {
        CacheSource::Generated
    } else {
        CacheSource::GeneratedUnsaved
    };
    assert(replay(CachePhase::Persist, e2) == Some((CachePhase::Ready, seq![CacheAction::UseParams(last)]))) by {
        assert(seq![CacheAction::UseParams(last)] + Seq::<CacheAction>::empty() =~= seq![CacheAction::UseParams(last)]);
    }
    assert(seq![CacheAction::WriteCache] + seq![CacheAction::UseParams(last)] =~= seq![CacheAction::WriteCache, CacheAction::UseParams(last)]);
    assert(seq![CacheAction::GenerateParams] + seq![CacheAction::WriteCache, CacheAction::UseParams(last)] =~= seq![CacheAction::GenerateParams, CacheAction::WriteCache, CacheAction::UseParams(last)]);
}

} // verus!
