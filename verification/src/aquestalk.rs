//! The synthesis engine as the proxy sees it: its fault codes and messages.

use crate::messages::{PayloadView, ResponsePayload, MAX_WAV_BYTES};
use vstd::prelude::*;

pub mod dll;
pub mod koe;

pub use dll::{AquesTalkDll, Voice};
pub use koe::Koe;

verus! {

/// Whether `code` is one of the fault codes that the engine documents.
pub open spec fn is_known_code(code: int) -> bool {
    100 <= code <= 111 || 200 <= code <= 204
}

/// The message that the engine's documentation gives for a fault code.
pub open spec fn message_of(code: int) -> Seq<char>
    recommends
        is_known_code(code),
{
    if code == 100 {
        "その他のエラー"@
    } else if code == 101 {
        "メモリ不足"@
    } else if code == 102 || code == 105 {
        "音声記号列に未定義の読み記号が指定された"@
    } else if code == 103 {
        "韻律データの時間長がマイナスなっている"@
    } else if code == 104 {
        "内部エラー(未定義の区切りコード検出）"@
    } else if code == 106 {
        "音声記号列のタグの指定が正しくない"@
    } else if code == 107 {
        "タグの長さが制限を越えている（または[>]がみつからない）"@
    } else if code == 108 {
        "タグ内の値の指定が正しくない"@
    } else if code == 109 {
        "WAVE 再生ができない（サウンドドライバ関連の問題）"@
    } else if code == 110 {
        "WAVE 再生ができない（サウンドドライバ関連の問題非同期再生）"@
    } else if code == 111 {
        "発声すべきデータがない"@
    } else if code == 200 {
        "音声記号列が長すぎる"@
    } else if code == 201 {
        "１つのフレーズ中の読み記号が多すぎる"@
    } else if code == 202 || code == 204 {
        "音声記号列が長い（内部バッファオーバー1）"@
    } else {
        "ヒープメモリ不足"@
    }
}

/// A fault that the engine reported, identified by its numeric code.
#[derive(Debug, Clone, Copy, PartialEq, Eq)]
pub struct Error {
    code: i32,
}

impl View for Error {
    type V = int;

    closed spec fn view(&self) -> int {
        self.code as int
    }
}

impl Error {
    /// Every fault carries a documented code.
    #[verifier::type_invariant]
    spec fn documented(self) -> bool {
        is_known_code(self.code as int)
    }

    /// Makes the fault with the given code, which must be a documented one.
    pub fn new(code: i32) -> (error: Error)
        requires
            is_known_code(code as int),
        ensures
            error@ == code,
    {
        Error { code }
    }

    /// Checks the code first and gives no fault for an undocumented one.
    pub fn try_new(code: i32) -> (error: Option<Error>)
        ensures
            error matches Some(e) ==> is_known_code(code as int) && e@ == code,
            error is None ==> !is_known_code(code as int),
    {
        if (100 <= code && code <= 111) || (200 <= code && code <= 204) {
            Some(Error { code })
        } else {
            None
        }
    }

    /// The numeric code, always a documented one.
    pub fn code(&self) -> (code: i32)
        ensures
            code == self@,
            is_known_code(code as int),
    {
        proof {
            use_type_invariant(self);
        }
        self.code
    }

    /// The documented message of this fault.
    pub fn message(&self) -> (message: &'static str)
        ensures
            message@ == message_of(self@),
    {
        proof {
            use_type_invariant(self);
        }
        let code = self.code;
        if code == 100 {
            "その他のエラー"
        } else if code == 101 {
            "メモリ不足"
        } else if code == 102 || code == 105 {
            "音声記号列に未定義の読み記号が指定された"
        } else if code == 103 {
            "韻律データの時間長がマイナスなっている"
        } else if code == 104 {
            "内部エラー(未定義の区切りコード検出）"
        } else if code == 106 {
            "音声記号列のタグの指定が正しくない"
        } else if code == 107 {
            "タグの長さが制限を越えている（または[>]がみつからない）"
        } else if code == 108 {
            "タグ内の値の指定が正しくない"
        } else if code == 109 {
            "WAVE 再生ができない（サウンドドライバ関連の問題）"
        } else if code == 110 {
            "WAVE 再生ができない（サウンドドライバ関連の問題非同期再生）"
        } else if code == 111 {
            "発声すべきデータがない"
        } else if code == 200 {
            "音声記号列が長すぎる"
        } else if code == 201 {
            "１つのフレーズ中の読み記号が多すぎる"
        } else if code == 202 || code == 204 {
            "音声記号列が長い（内部バッファオーバー1）"
        } else {
            "ヒープメモリ不足"
        }
    }
}

/// Synthesized audio, short enough to be sent as text.
#[derive(Debug, PartialEq, Eq)]
pub struct Wav {
    bytes: Vec<u8>,
}

impl View for Wav {
    type V = Seq<u8>;

    closed spec fn view(&self) -> Seq<u8> {
        self.bytes@
    }
}

impl Wav {
    #[verifier::type_invariant]
    spec fn sendable(self) -> bool {
        self.bytes@.len() <= MAX_WAV_BYTES
    }

    /// Takes over a buffer of audio, unless it is longer than
    /// [`MAX_WAV_BYTES`].
    pub fn new(bytes: Vec<u8>) -> (wav: Option<Wav>)
        ensures
            match wav {
                Some(w) => w@ == bytes@ && bytes@.len() <= MAX_WAV_BYTES,
                None => bytes@.len() > MAX_WAV_BYTES,
            },
    {
        if bytes.len() <= MAX_WAV_BYTES {
            Some(Wav { bytes })
        } else {
            None
        }
    }

    /// The number of bytes of audio.
    pub fn size(&self) -> (size: usize)
        ensures
            size == self@.len(),
            size <= MAX_WAV_BYTES,
    {
        proof {
            use_type_invariant(self);
        }
        self.bytes.len()
    }

    /// The audio itself.
    pub fn as_bytes(&self) -> (bytes: &[u8])
        ensures
            bytes@ == self@,
            bytes@.len() <= MAX_WAV_BYTES,
    {
        proof {
            use_type_invariant(self);
        }
        self.bytes.as_slice()
    }
}

/// What a voice gave, as the contracts see it: the audio, or the code of
/// the fault.
pub open spec fn raw_view(outcome: Result<Wav, Error>) -> Result<Seq<u8>, int> {
    match outcome {
        Ok(wav) => Ok(wav@),
        Err(error) => Err(error@),
    }
}

/// What a synthesis gave, as the contracts see it: the audio, or the payload
/// that tells the peer why there is none.
pub open spec fn outcome_view(outcome: Result<Wav, ResponsePayload>) -> Result<
    Seq<u8>,
    PayloadView,
> {
    match outcome {
        Ok(wav) => Ok(wav@),
        Err(payload) => Err(payload@),
    }
}

/// A synthesis capability: a set of voices that turn phonetic text into
/// audio. What an implementation answers is its own affair; it says which
/// answers it may give, and the proxy passes on the one it gives.
pub trait AquesTalk {
    /// Whether the capability may give `outcome` when it is asked for this
    /// voice, text and speed. An implementation that says nothing may give
    /// anything.
    open spec fn may_answer(
        &self,
        voice_type: Seq<char>,
        koe: Seq<char>,
        speed: int,
        outcome: Result<Seq<u8>, PayloadView>,
    ) -> bool {
        true
    }

    fn synthe(&self, voice_type: &str, koe: &str, speed: i32) -> (outcome: Result<
        Wav,
        ResponsePayload,
    >)
        requires
            koe::fits(koe@),
        ensures
            self.may_answer(voice_type@, koe@, speed as int, outcome_view(outcome)),
    ;
}

} // verus!
