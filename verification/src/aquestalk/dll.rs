//! The registry of the voices that were loaded, and the synthesis through it.

use super::koe::{checked, fits};
use super::{is_known_code, outcome_view, raw_view, AquesTalk, Error, Koe, Wav};
use crate::messages::{fault_payload, PayloadView, ResponsePayload};
use crate::messages::{wav_payload, RequestView, ResponseView};
use crate::server::{new_voice_type_error, reply, unknown_voice_payload, DecodedView};
use vstd::prelude::*;
use vstd::string::StringExecFns;

verus! {

/// One loaded voice of the engine. What it answers is its own affair; it
/// says which answers it may give.
pub trait Voice {
    /// Whether the voice may give `raw`, audio or the code of a fault, when
    /// it is asked for this encoded text and speed. An implementation that
    /// says nothing may give anything.
    open spec fn may_give(&self, koe: Seq<u8>, speed: int, raw: Result<Seq<u8>, int>) -> bool {
        true
    }

    fn synthe(&self, koe: &Koe, speed: i32) -> (outcome: Result<Wav, Error>)
        ensures
            self.may_give(koe@, speed as int, raw_view(outcome)),
    ;
}

/// The voices by identifier. A registry that is filled through
/// [`AquesTalkDll::insert`] holds no identifier twice.
pub struct AquesTalkDll<V> {
    entries: Vec<(String, V)>,
}

/// What a request to the registry comes to, given what the voice answers
/// where it is asked: `raw` is its audio or the code of its fault.
pub open spec fn synthesis_outcome(
    known: bool,
    voice_type: Seq<char>,
    koe: Seq<char>,
    raw: Result<Seq<u8>, int>,
) -> Result<Seq<u8>, PayloadView> {
    if !known {
        Err(unknown_voice_payload(voice_type))
    } else {
        match checked(koe) {
            Err(code) => Err(fault_payload(code)),
            Ok(_) => match raw {
                Ok(wav) => Ok(wav),
                Err(code) => Err(fault_payload(code)),
            },
        }
    }
}

impl<V> AquesTalkDll<V> {
    /// Whether no identifier occurs twice.
    pub open spec fn distinct(&self) -> bool {
        forall|i: int, j: int|
            0 <= i < j < self.names().len() ==> #[trigger] self.names()[i]
                != #[trigger] self.names()[j]
    }

    /// The identifiers of the voices, in the order in which they came.
    pub closed spec fn names(&self) -> Seq<Seq<char>> {
        Seq::new(self.entries@.len(), |i: int| self.entries@[i].0@)
    }

    /// The voices, each at the place of its identifier in [`Self::names`].
    pub closed spec fn voices(&self) -> Seq<V> {
        Seq::new(self.entries@.len(), |i: int| self.entries@[i].1)
    }

    /// Whether a voice has this identifier.
    pub open spec fn knows(&self, voice_type: Seq<char>) -> bool {
        self.names().contains(voice_type)
    }

    /// A registry without voices.
    pub fn new() -> (registry: Self)
        ensures
            registry.names() == Seq::<Seq<char>>::empty(),
            registry.distinct(),
    {
        let registry = AquesTalkDll { entries: Vec::new() };
        assert(registry.names() =~= Seq::<Seq<char>>::empty());
        registry
    }

    fn position(&self, voice_type: &str) -> (at: Option<usize>)
        ensures
            match at {
                Some(i) => i < self.entries@.len() && self.entries@[i as int].0@ == voice_type@,
                None => forall|i: int|
                    0 <= i < self.entries@.len() ==> (#[trigger] self.entries@[i]).0@
                        != voice_type@,
            },
    {
        let wanted = String::from_str(voice_type);
        let mut i: usize = 0;
        while i < self.entries.len()
            invariant
                i <= self.entries@.len(),
                wanted@ == voice_type@,
                forall|k: int| 0 <= k < i ==> (#[trigger] self.entries@[k]).0@ != voice_type@,
            decreases self.entries@.len() - i,
        {
            if self.entries[i].0 == wanted {
                return Some(i);
            }
            i = i + 1;
        }
        None
    }

    /// Registers a voice. One that had the identifier before is replaced;
    /// the voices under other identifiers stay.
    pub fn insert(&mut self, voice_type: String, voice: V)
        ensures
            final(self).knows(voice_type@),
            exists|i: int|
                0 <= i < final(self).names().len() && final(self).names()[i] == voice_type@
                    && #[trigger] final(self).voices()[i] == voice,
            forall|i: int|
                0 <= i < old(self).names().len() && old(self).names()[i] != voice_type@
                    ==> #[trigger] final(self).voices()[i] == old(self).voices()[i],
            forall|name: Seq<char>|
                name != voice_type@ ==> final(self).knows(name) == old(self).knows(name),
            old(self).knows(voice_type@) ==> final(self).names() == old(self).names(),
            !old(self).knows(voice_type@) ==> final(self).names() == old(self).names().push(
                voice_type@,
            ),
            old(self).distinct() ==> final(self).distinct(),
    {
        let ghost before = self.names();
        match self.position(voice_type.as_str()) {
            Some(i) => {
                let ghost name = voice_type@;
                self.entries.set(i, (voice_type, voice));
                assert(self.names() =~= before);
                assert(self.names()[i as int] == name);
                assert(self.voices()[i as int] == voice);
            },
            None => {
                let ghost name = voice_type@;
                assert(!before.contains(name)) by {
                    if before.contains(name) {
                        let k = choose|k: int| 0 <= k < before.len() && before[k] == name;
                        assert(self.entries@[k].0@ == name);
                    }
                }
                self.entries.push((voice_type, voice));
                assert(self.names() =~= before.push(name));
                assert(self.names()[before.len() as int] == name);
                assert(self.voices()[before.len() as int] == voice);
                assert forall|other: Seq<char>| other != name implies self.names().contains(other)
                    == before.contains(other) by {
                    if self.names().contains(other) {
                        let k = choose|k: int| 0 <= k < self.names().len() && self.names()[k] == other;
                        assert(before[k] == other);
                    }
                    if before.contains(other) {
                        let k = choose|k: int| 0 <= k < before.len() && before[k] == other;
                        assert(self.names()[k] == other);
                    }
                }
            },
        }
    }

    /// The voice with this identifier, if there is one.
    pub fn lookup(&self, voice_type: &str) -> (voice: Option<&V>)
        ensures
            voice is Some <==> self.knows(voice_type@),
            voice matches Some(v) ==> exists|i: int|
                0 <= i < self.names().len() && self.names()[i] == voice_type@ && self.voices()[i]
                    == *v,
    {
        match self.position(voice_type) {
            Some(i) => {
                assert(self.names()[i as int] == voice_type@);
                assert(self.voices()[i as int] == self.entries@[i as int].1);
                Some(&self.entries[i].1)
            },
            None => {
                assert(!self.names().contains(voice_type@)) by {
                    if self.names().contains(voice_type@) {
                        let k = choose|k: int|
                            0 <= k < self.names().len() && self.names()[k] == voice_type@;
                        assert(self.entries@[k].0@ == voice_type@);
                    }
                }
                None
            },
        }
    }

    /// Whether a voice has this identifier.
    pub fn contains_key(&self, voice_type: &str) -> (known: bool)
        ensures
            known == self.knows(voice_type@),
    {
        self.lookup(voice_type).is_some()
    }
}

impl<V: Voice> AquesTalkDll<V> {
    /// Asks the voice with this identifier, if there is one, for the audio of
    /// a text that was checked.
    pub fn synthe_raw(&self, voice_type: &str, koe: &Koe, speed: i32) -> (outcome: Option<
        Result<Wav, Error>,
    >)
        ensures
            outcome is Some <==> self.knows(voice_type@),
            outcome matches Some(raw) ==> self.may_give(
                voice_type@,
                koe@,
                speed as int,
                raw_view(raw),
            ),
    {
        match self.lookup(voice_type) {
            Some(voice) => Some(voice.synthe(koe, speed)),
            None => None,
        }
    }

    /// Whether a voice with this identifier may give `raw` when it is asked
    /// for this encoded text and speed.
    pub open spec fn may_give(
        &self,
        voice_type: Seq<char>,
        koe: Seq<u8>,
        speed: int,
        raw: Result<Seq<u8>, int>,
    ) -> bool {
        exists|i: int|
            0 <= i < self.names().len() && self.names()[i] == voice_type
                && (#[trigger] self.voices()[i]).may_give(koe, speed, raw)
    }
}

impl<V: Voice> AquesTalk for AquesTalkDll<V> {
    /// An unknown voice is refused first, then a text that the engine would
    /// not take; only then is the voice asked, and what it gives is passed
    /// on: its audio as it is, its fault with the documented message.
    open spec fn may_answer(
        &self,
        voice_type: Seq<char>,
        koe: Seq<char>,
        speed: int,
        outcome: Result<Seq<u8>, PayloadView>,
    ) -> bool {
        exists|raw: Result<Seq<u8>, int>|
            {
                &&& outcome == #[trigger] synthesis_outcome(
                    self.knows(voice_type),
                    voice_type,
                    koe,
                    raw,
                )
                &&& raw matches Err(code) ==> is_known_code(code)
                &&& self.knows(voice_type) && checked(koe) is Ok ==> self.may_give(
                    voice_type,
                    checked(koe)->Ok_0,
                    speed,
                    raw,
                )
            }
    }

    fn synthe(&self, voice_type: &str, koe: &str, speed: i32) -> (outcome: Result<
        Wav,
        ResponsePayload,
    >)
    {
        if !self.contains_key(voice_type) {
            let payload = new_voice_type_error(voice_type);
            assert(outcome_view(Err(payload)) == synthesis_outcome(
                false,
                voice_type@,
                koe@,
                Err(100),
            ));
            return Err(payload);
        }
        let encoded = match Koe::from_str(koe) {
            Ok(encoded) => encoded,
            Err(err) => {
                let payload = ResponsePayload::from_error(err);
                assert(outcome_view(Err(payload)) == synthesis_outcome(
                    true,
                    voice_type@,
                    koe@,
                    Err(100),
                ));
                return Err(payload);
            },
        };
        match self.synthe_raw(voice_type, &encoded, speed) {
            Some(Ok(wav)) => {
                assert(outcome_view(Ok(wav)) == synthesis_outcome(
                    true,
                    voice_type@,
                    koe@,
                    Ok(wav@),
                ));
                Ok(wav)
            },
            Some(Err(err)) => {
                let payload = ResponsePayload::from_error(err);
                assert(outcome_view(Err(payload)) == synthesis_outcome(
                    true,
                    voice_type@,
                    koe@,
                    Err(err@),
                ));
                Err(payload)
            },
            None => {
                let payload = new_voice_type_error(voice_type);
                Err(payload)
            },
        }
    }
}

/// A request for a voice that is there, with a text that passes the checks,
/// is answered with the audio that the voice gives, marked as a success.
pub proof fn law_known_voice_is_served(text: Seq<char>, request: RequestView, wav: Seq<u8>)
    requires
        checked(request.koe) is Ok,
    ensures
        reply(
            DecodedView::Value { text, request: Ok(request) },
            synthesis_outcome(true, request.voice_type, request.koe, Ok(wav)),
        ) == Some(
            ResponseView {
                is_success: true,
                will_close: None,
                response: wav_payload(wav),
                request: Some(text),
            },
        ),
{
}

/// A request for a voice that is not in the registry is answered with a
/// fault of the synthesis that has no code and names the voice, whatever
/// the text is; the response does not announce the end.
pub proof fn law_unknown_voice_is_refused<V: Voice>(
    registry: AquesTalkDll<V>,
    text: Seq<char>,
    request: RequestView,
    outcome: Result<Seq<u8>, PayloadView>,
)
    requires
        !registry.knows(request.voice_type),
        registry.may_answer(request.voice_type, request.koe, request.speed, outcome),
    ensures
        reply(DecodedView::Value { text, request: Ok(request) }, outcome) == Some(
            ResponseView {
                is_success: false,
                will_close: None,
                response: PayloadView::AquestalkError {
                    code: None,
                    message: "不明な声種 ("@ + request.voice_type + ")"@,
                },
                request: Some(text),
            },
        ),
{
}

/// A request for a voice that is there, with a text that the checks or the
/// voice refuse, is answered with the code and the documented message of
/// the fault; the response does not announce the end.
pub proof fn law_engine_fault_is_reported(
    text: Seq<char>,
    request: RequestView,
    raw: Result<Seq<u8>, int>,
)
    requires
        checked(request.koe) is Err || raw is Err,
    ensures
        reply(
            DecodedView::Value { text, request: Ok(request) },
            synthesis_outcome(true, request.voice_type, request.koe, raw),
        ) == Some(
            ResponseView {
                is_success: false,
                will_close: None,
                response: fault_payload(
                    match checked(request.koe) {
                        Err(code) => code,
                        Ok(_) => raw->Err_0,
                    },
                ),
                request: Some(text),
            },
        ),
{
}

} // verus!
