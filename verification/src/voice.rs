//! Phrase boundaries from chunk energy, and the routing of chunks into
//! utterances with a bounded pre-roll.

use std::collections::VecDeque;
use vstd::prelude::*;

verus! {

#[derive(Clone, Copy, Debug, PartialEq, Eq, Structural)]
pub enum VoiceActivity {
    Silence,
    Started,
    Speech,
    Ended,
}

/// A deliberately small, backend-independent energy gate. It turns a run of
/// chunk verdicts (whether each chunk reached the energy threshold) into
/// debounced phrase boundaries: speech starts after `attack_chunks` loud
/// chunks in a row and ends after `release_chunks` quiet ones in a row.
#[derive(Clone, Copy, Debug)]
pub struct EnergyVoiceDetector {
    attack_chunks: u16,
    release_chunks: u16,
    active: bool,
    consecutive_signal: u16,
    consecutive_silence: u16,
}

pub open spec fn saturating_increment(count: u16) -> u16 {
    if count == u16::MAX { u16::MAX } else { (count + 1) as u16 }
}

impl EnergyVoiceDetector {
    pub closed spec fn attack(&self) -> u16 {
        self.attack_chunks
    }

    pub closed spec fn release(&self) -> u16 {
        self.release_chunks
    }

    /// Whether a phrase is open.
    pub closed spec fn speaking(&self) -> bool {
        self.active
    }

    /// Loud chunks seen in a row while no phrase is open.
    pub closed spec fn loud_run(&self) -> u16 {
        self.consecutive_signal
    }

    /// Quiet chunks seen in a row while a phrase is open.
    pub closed spec fn quiet_run(&self) -> u16 {
        self.consecutive_silence
    }

    /// A detector whose attack and release each take at least one chunk.
    pub fn new(attack_chunks: u16, release_chunks: u16) -> (detector: Self)
        ensures
            detector.attack() == if attack_chunks == 0 { 1 } else { attack_chunks },
            detector.release() == if release_chunks == 0 { 1 } else { release_chunks },
            !detector.speaking(),
            detector.loud_run() == 0,
            detector.quiet_run() == 0,
    {
        EnergyVoiceDetector {
            attack_chunks: if attack_chunks == 0 { 1 } else { attack_chunks },
            release_chunks: if release_chunks == 0 { 1 } else { release_chunks },
            active: false,
            consecutive_signal: 0,
            consecutive_silence: 0,
        }
    }

    /// How `observe_level` with verdict `loud` takes the detector `before`
    /// to `after` and gives `activity`.
    pub open spec fn observe_relation(before: Self, after: Self, loud: bool, activity: VoiceActivity) -> bool {
        &&& after.attack() == before.attack()
        &&& after.release() == before.release()
        &&& loud && before.speaking() ==> activity == VoiceActivity::Speech && after.speaking()
            && after.quiet_run() == 0 && after.loud_run() == before.loud_run()
        &&& loud && !before.speaking() ==> {
            let run = saturating_increment(before.loud_run());
            &&& after.quiet_run() == 0
            &&& if run >= before.attack() {
                activity == VoiceActivity::Started && after.speaking() && after.loud_run() == 0
            } else {
                activity == VoiceActivity::Silence && !after.speaking() && after.loud_run() == run
            }
        }
        &&& !loud && !before.speaking() ==> activity == VoiceActivity::Silence && !after.speaking()
            && after.loud_run() == 0 && after.quiet_run() == before.quiet_run()
        &&& !loud && before.speaking() ==> {
            let run = saturating_increment(before.quiet_run());
            &&& after.loud_run() == 0
            &&& if run >= before.release() {
                activity == VoiceActivity::Ended && !after.speaking() && after.quiet_run() == 0
            } else {
                activity == VoiceActivity::Speech && after.speaking() && after.quiet_run() == run
            }
        }
        // Phrase boundaries alternate: a phrase opens only when none is
        // open, and closes only when one is.
        &&& activity == VoiceActivity::Started ==> !before.speaking() && after.speaking()
        &&& activity == VoiceActivity::Ended ==> before.speaking() && !after.speaking()
        &&& activity == VoiceActivity::Speech ==> before.speaking() && after.speaking()
        &&& activity == VoiceActivity::Silence ==> !before.speaking() && !after.speaking()
    }

    /// Takes the verdict for the next chunk and returns its activity.
    pub fn observe_level(&mut self, loud: bool) -> (activity: VoiceActivity)
        ensures
            Self::observe_relation(*old(self), *final(self), loud, activity),
    {
        if loud {
            self.consecutive_silence = 0;
            if self.active {
                return VoiceActivity::Speech;
            }
            self.consecutive_signal = self.consecutive_signal.saturating_add(1);
            if self.consecutive_signal >= self.attack_chunks {
                self.active = true;
                self.consecutive_signal = 0;
                return VoiceActivity::Started;
            }
            return VoiceActivity::Silence;
        }
        self.consecutive_signal = 0;
        if !self.active {
            return VoiceActivity::Silence;
        }
        self.consecutive_silence = self.consecutive_silence.saturating_add(1);
        if self.consecutive_silence >= self.release_chunks {
            self.active = false;
            self.consecutive_silence = 0;
            VoiceActivity::Ended
        } else {
            VoiceActivity::Speech
        }
    }

    pub fn reset(&mut self)
        ensures
            final(self).attack() == old(self).attack(),
            final(self).release() == old(self).release(),
            !final(self).speaking(),
            final(self).loud_run() == 0,
            final(self).quiet_run() == 0,
    {
        self.active = false;
        self.consecutive_signal = 0;
        self.consecutive_silence = 0;
    }

    pub fn is_active(&self) -> (active: bool)
        ensures
            active == self.speaking(),
    {
        self.active
    }
}

#[derive(Clone, Debug, PartialEq)]
pub struct ProcessedAudioChunk<S> {
    pub start_micros: u64,
    pub end_micros: u64,
    pub sample_rate: u32,
    pub samples: Vec<S>,
    pub voice_activity: VoiceActivity,
    pub rms: S,
}

pub struct RoutedSpeechChunks<S> {
    pub chunks: Vec<ProcessedAudioChunk<S>>,
    pub end_utterance: bool,
}

/// Routes VAD-tagged chunks into an utterance while retaining a bounded amount
/// of quiet audio before speech begins and the release chunk after it ends.
pub struct SpeechChunkRouter<S> {
    pre_roll_chunks: usize,
    pre_roll: VecDeque<ProcessedAudioChunk<S>>,
}

/// The last `limit` elements of `s`, or all of `s` when it is shorter.
pub open spec fn newest<T>(s: Seq<T>, limit: nat) -> Seq<T> {
    if s.len() > limit { s.skip(s.len() - limit) } else { s }
}

impl<S> SpeechChunkRouter<S> {
    /// The quiet chunks kept for the next utterance, oldest first.
    pub closed spec fn held(&self) -> Seq<ProcessedAudioChunk<S>> {
        self.pre_roll@
    }

    pub closed spec fn limit(&self) -> nat {
        self.pre_roll_chunks as nat
    }

    pub closed spec fn wf(&self) -> bool {
        self.pre_roll@.len() <= self.pre_roll_chunks
    }

    pub fn new(pre_roll_chunks: usize) -> (router: Self)
        ensures
            router.wf(),
            router.limit() == pre_roll_chunks,
            router.held() == Seq::<ProcessedAudioChunk<S>>::empty(),
    {
        SpeechChunkRouter { pre_roll_chunks, pre_roll: VecDeque::with_capacity(pre_roll_chunks) }
    }

    pub fn route(&mut self, chunk: ProcessedAudioChunk<S>) -> (routed: RoutedSpeechChunks<S>)
        requires
            old(self).wf(),
        ensures
            final(self).wf(),
            final(self).limit() == old(self).limit(),
            match chunk.voice_activity {
                VoiceActivity::Silence => {
                    &&& routed.chunks@ == Seq::<ProcessedAudioChunk<S>>::empty()
                    &&& !routed.end_utterance
                    &&& final(self).held() == if old(self).limit() > 0 {
                        newest(old(self).held().push(chunk), old(self).limit())
                    } else {
                        old(self).held()
                    }
                },
                VoiceActivity::Started => {
                    &&& routed.chunks@ == old(self).held().push(chunk)
                    &&& !routed.end_utterance
                    &&& final(self).held() == Seq::<ProcessedAudioChunk<S>>::empty()
                },
                VoiceActivity::Speech => {
                    &&& routed.chunks@ == seq![chunk]
                    &&& !routed.end_utterance
                    &&& final(self).held() == old(self).held()
                },
                VoiceActivity::Ended => {
                    // Feed the release chunk before finalizing so the decoder gets
                    // the full trailing context used to detect the phrase ending.
                    &&& routed.chunks@ == seq![chunk]
                    &&& routed.end_utterance
                    &&& final(self).held() == old(self).held()
                },
            },
    {
        match chunk.voice_activity {
            VoiceActivity::Silence => {
                if self.pre_roll_chunks > 0 {
                    let ghost pushed = self.pre_roll@.push(chunk);
                    self.pre_roll.push_back(chunk);
                    if self.pre_roll.len() > self.pre_roll_chunks {
                        let _ = self.pre_roll.pop_front();
                        assert(self.pre_roll@ =~= newest(pushed, self.pre_roll_chunks as nat));
                    }
                }
                RoutedSpeechChunks { chunks: Vec::new(), end_utterance: false }
            },
            VoiceActivity::Started => {
                let mut chunks: Vec<ProcessedAudioChunk<S>> = Vec::new();
                let ghost held = self.pre_roll@;
                while self.pre_roll.len() > 0
                    invariant
                        held == chunks@ + self.pre_roll@,
                        self.pre_roll_chunks == old(self).pre_roll_chunks,
                    decreases self.pre_roll@.len(),
                {
                    match self.pre_roll.pop_front() {
                        Some(previous) => chunks.push(previous),
                        None => {},
                    }
                    assert(held =~= chunks@ + self.pre_roll@);
                }
                assert(held =~= chunks@);
                chunks.push(chunk);
                RoutedSpeechChunks { chunks, end_utterance: false }
            },
            VoiceActivity::Speech => RoutedSpeechChunks { chunks: vec![chunk], end_utterance: false },
            VoiceActivity::Ended => RoutedSpeechChunks { chunks: vec![chunk], end_utterance: true },
        }
    }

    pub fn reset(&mut self)
        ensures
            final(self).wf(),
            final(self).limit() == old(self).limit(),
            final(self).held() == Seq::<ProcessedAudioChunk<S>>::empty(),
    {
        self.pre_roll.clear();
    }
}

} // verus!
