//! The bookkeeping around a Whisper model: its special tokens, the shape of
//! what it gives back, the walk through its answer, and the text that is
//! made of it. The inference itself is not here.

use tokenizers::Tokenizer;
use vstd::prelude::*;
use vstd::string::StringExecFns;
use crate::asr::model::AsrError;
use crate::text::debug_list;
use crate::text::decimal;
use crate::text::decimal_text;
use crate::text::is_blank;
use crate::text::is_blank_text;
use crate::text::list_text;

verus! {

/// `Tokenizer` of the tokenizers crate. It is carried through as it is:
/// nothing of what it holds is seen here.
#[verifier::external_type_specification]
#[verifier::external_body]
pub struct ExTokenizer(tokenizers::Tokenizer);

/// The most tokens that are read from one answer of the model.
pub const MAX_DECODE_STEPS: usize = 448;

/// The ids under which a tokenizer knows the four tokens that frame a
/// Japanese transcription.
#[derive(Debug, Clone, Copy, PartialEq, Eq, Structural)]
pub struct SpecialTokens {
    /// `<|startoftranscript|>`
    pub bos_id: u32,
    /// `<|ja|>`
    pub lang_id: u32,
    /// `<|transcribe|>`
    pub task_id: u32,
    /// `<|endoftext|>`
    pub eos_id: u32,
}

/// Whether `result` is what four lookups come to: the four ids if all were
/// found, else the failure that names the first token not found, in the
/// order start, language, task, end.
pub open spec fn resolved(
    bos: Option<u32>,
    lang: Option<u32>,
    task: Option<u32>,
    eos: Option<u32>,
    result: Result<SpecialTokens, AsrError>,
) -> bool {
    if bos is None {
        result matches Err(AsrError::InferenceFailed(why)) && why@
            == "Tokenizer is missing <|startoftranscript|> token"@
    } else if lang is None {
        result matches Err(AsrError::InferenceFailed(why)) && why@
            == "Tokenizer is missing <|ja|> token"@
    } else if task is None {
        result matches Err(AsrError::InferenceFailed(why)) && why@
            == "Tokenizer is missing <|transcribe|> token"@
    } else if eos is None {
        result matches Err(AsrError::InferenceFailed(why)) && why@
            == "Tokenizer is missing <|endoftext|> token"@
    } else {
        result == Ok::<SpecialTokens, AsrError>(
            SpecialTokens {
                bos_id: bos->Some_0,
                lang_id: lang->Some_0,
                task_id: task->Some_0,
                eos_id: eos->Some_0,
            },
        )
    }
}

/// The id under which `tokenizer` holds `token`, if it holds it, as
/// `Tokenizer::token_to_id` of the tokenizers crate finds it: by the
/// token's text among the tokens that were added, and else in the
/// vocabulary of the model.
pub uninterp spec fn token_id(tokenizer: Tokenizer, token: Seq<char>) -> Option<u32>;

/// `Tokenizer::token_to_id` of the tokenizers crate: the id under which the
/// tokenizer holds `token`, if it holds it. The answer is a lookup by key
/// and depends on the tokenizer and the token alone.
#[verifier::external_body]
fn token_to_id(tokenizer: &Tokenizer, token: &str) -> (id: Option<u32>)
    ensures
        id == token_id(*tokenizer, token@),
{
    tokenizer.token_to_id(token)
}

impl SpecialTokens {
    /// The special tokens from what the lookups of the four gave.
    pub fn from_lookups(
        bos: Option<u32>,
        lang: Option<u32>,
        task: Option<u32>,
        eos: Option<u32>,
    ) -> (result: Result<SpecialTokens, AsrError>)
        ensures
            resolved(bos, lang, task, eos, result),
    {
        match (bos, lang, task, eos) {
            (None, _, _, _) => Err(
                AsrError::InferenceFailed(
                    String::from_str("Tokenizer is missing <|startoftranscript|> token"),
                ),
            ),
            (Some(_), None, _, _) => Err(
                AsrError::InferenceFailed(String::from_str("Tokenizer is missing <|ja|> token")),
            ),
            (Some(_), Some(_), None, _) => Err(
                AsrError::InferenceFailed(
                    String::from_str("Tokenizer is missing <|transcribe|> token"),
                ),
            ),
            (Some(_), Some(_), Some(_), None) => Err(
                AsrError::InferenceFailed(
                    String::from_str("Tokenizer is missing <|endoftext|> token"),
                ),
            ),
            (Some(bos_id), Some(lang_id), Some(task_id), Some(eos_id)) => Ok(
                SpecialTokens { bos_id, lang_id, task_id, eos_id },
            ),
        }
    }

    /// Looks the four special tokens up in `tokenizer`: the four ids where
    /// it holds them all, and else the failure that names the first one it
    /// lacks. A tokenizer that lacks one of them cannot be used for Whisper.
    pub fn resolve(tokenizer: &Tokenizer) -> (result: Result<SpecialTokens, AsrError>)
        ensures
            resolved(
                token_id(*tokenizer, "<|startoftranscript|>"@),
                token_id(*tokenizer, "<|ja|>"@),
                token_id(*tokenizer, "<|transcribe|>"@),
                token_id(*tokenizer, "<|endoftext|>"@),
                result,
            ),
    {
        let bos = token_to_id(tokenizer, "<|startoftranscript|>");
        let lang = token_to_id(tokenizer, "<|ja|>");
        let task = token_to_id(tokenizer, "<|transcribe|>");
        let eos = token_to_id(tokenizer, "<|endoftext|>");
        Self::from_lookups(bos, lang, task, eos)
    }

    /// The four ids as they are named in a report: `BOS=1, JA=2, Task=3,
    /// EOS=4`.
    pub open spec fn report_text(self) -> Seq<char> {
        "BOS="@ + decimal_text(self.bos_id as nat) + ", JA="@ + decimal_text(self.lang_id as nat)
            + ", Task="@ + decimal_text(self.task_id as nat) + ", EOS="@ + decimal_text(
            self.eos_id as nat,
        )
    }

    /// The four ids as they are named in a report.
    pub fn report(&self) -> (text: String)
        ensures
            text@ == self.report_text(),
    {
        let mut text = String::from_str("BOS=");
        text.append(decimal(self.bos_id as u64).as_str());
        text.append(", JA=");
        text.append(decimal(self.lang_id as u64).as_str());
        text.append(", Task=");
        text.append(decimal(self.task_id as u64).as_str());
        text.append(", EOS=");
        text.append(decimal(self.eos_id as u64).as_str());
        text
    }
}

/// Whether `result` is what the shape of a model's answer comes to: the
/// number of steps and the size of the vocabulary where the shape is
/// `[1, steps, vocabulary]`, else the failure that says what was wrong.
pub open spec fn shape_checked(shape: Seq<usize>, result: Result<(usize, usize), AsrError>) -> bool {
    if shape.len() != 3 {
        result matches Err(AsrError::InferenceFailed(why)) && why@ == "Unexpected logits shape: "@
            + list_text(shape) + " (expected [1, seq_len, vocab])"@
    } else if shape[0] != 1 {
        result matches Err(AsrError::InferenceFailed(why)) && why@ == "Unexpected batch size: "@
            + decimal_text(shape[0] as nat) + " (expected 1)"@
    } else {
        result == Ok::<(usize, usize), AsrError>((shape[1], shape[2]))
    }
}

/// Reads the number of steps and the size of the vocabulary off the shape
/// of a model's answer, which must be one batch of steps by vocabulary.
pub fn check_logits_shape(shape: &[usize]) -> (result: Result<(usize, usize), AsrError>)
    ensures
        shape_checked(shape@, result),
{
    if shape.len() != 3 {
        let mut why = String::from_str("Unexpected logits shape: ");
        why.append(debug_list(shape).as_str());
        why.append(" (expected [1, seq_len, vocab])");
        return Err(AsrError::InferenceFailed(why));
    }
    if shape[0] != 1 {
        let mut why = String::from_str("Unexpected batch size: ");
        why.append(decimal(shape[0] as u64).as_str());
        why.append(" (expected 1)");
        return Err(AsrError::InferenceFailed(why));
    }
    Ok((shape[1], shape[2]))
}

/// How many steps of an answer of `seq_len` steps are read.
pub open spec fn decode_steps(seq_len: usize) -> usize {
    if seq_len <= MAX_DECODE_STEPS {
        seq_len
    } else {
        MAX_DECODE_STEPS
    }
}

/// The token that stands for the entry `best` of the vocabulary.
pub open spec fn token_of(best: usize) -> u32 {
    (best as u64 % 0x1_0000_0000) as u32
}

/// Whether `token` is the token of an entry that `best_at` chose at `step`.
pub open spec fn chosen_at<A: Fn(usize) -> usize>(best_at: A, step: usize, token: u32) -> bool {
    exists|best: usize| #[trigger] call_ensures(best_at, (step,), best) && token == token_of(best)
}

/// Whether `tokens` is the greedy reading of an answer: step by step the
/// token of the entry that `best_at` chose, up to and with the first
/// end-of-text token, and no further than [`decode_steps`].
pub open spec fn is_greedy<A: Fn(usize) -> usize>(
    seq_len: usize,
    eos_id: u32,
    best_at: A,
    tokens: Seq<u32>,
) -> bool {
    &&& tokens.len() <= decode_steps(seq_len)
    &&& forall|step: usize| step < tokens.len() ==> #[trigger] chosen_at(best_at, step, tokens[step as int])
    &&& forall|step: int| 0 <= step < tokens.len() - 1 ==> tokens[step] != eos_id
    &&& tokens.len() < decode_steps(seq_len) ==> tokens.len() > 0 && tokens.last() == eos_id
}

/// Reads an answer of `seq_len` steps greedily: at each step it takes the
/// entry of the vocabulary that `best_at` chooses, and it stops after the
/// end-of-text token or after [`MAX_DECODE_STEPS`] steps.
pub fn greedy_tokens<A: Fn(usize) -> usize>(seq_len: usize, eos_id: u32, best_at: &A) -> (tokens:
    Vec<u32>)
    requires
        forall|step: usize| step < decode_steps(seq_len) ==> #[trigger] call_requires(*best_at, (step,)),
    ensures
        is_greedy(seq_len, eos_id, *best_at, tokens@),
{
    let max_steps: usize = if seq_len <= MAX_DECODE_STEPS { seq_len } else { MAX_DECODE_STEPS };
    let mut tokens: Vec<u32> = Vec::new();
    let mut step: usize = 0;
    let mut ended: bool = false;
    while step < max_steps && !ended
        invariant
            step <= max_steps,
            max_steps == decode_steps(seq_len),
            tokens@.len() == step,
            forall|s: usize| s < decode_steps(seq_len) ==> #[trigger] call_requires(*best_at, (s,)),
            forall|s: usize| s < tokens@.len() ==> #[trigger] chosen_at(*best_at, s, tokens@[s as int]),
            ended ==> tokens@.len() > 0 && tokens@.last() == eos_id,
            forall|s: int| 0 <= s < tokens@.len() - (if ended { 1int } else { 0int }) ==> tokens@[s] != eos_id,
        decreases max_steps - step, if ended { 0int } else { 1int },
    {
        let best: usize = best_at(step);
        let token: u32 = (best as u64 % 0x1_0000_0000) as u32;
        let ghost before = tokens@;
        tokens.push(token);
        proof {
            assert(chosen_at(*best_at, step, token));
            assert forall|s: usize| s < tokens@.len() implies #[trigger] chosen_at(
                *best_at,
                s,
                tokens@[s as int],
            ) by {
                if s < step {
                    assert(chosen_at(*best_at, s, before[s as int]));
                }
            }
        }
        if token == eos_id {
            ended = true;
        }
        step += 1;
    }
    tokens
}

/// The text that stands in for a transcription that came out empty.
pub open spec fn empty_decode_text(tokens: SpecialTokens, token_count: usize) -> Seq<char> {
    "[Whisper single-ONNX inference] "@ + tokens.report_text() + " | tokens="@ + decimal_text(
        token_count as nat,
    ) + " (empty decode)"@
}

/// Whether `text` is the transcription made of what the tokenizer decoded:
/// the decoded text, `[decode error]` where decoding failed, and a report
/// of the tokens where the text is nothing but white space.
pub open spec fn is_transcript(
    decoded: Option<String>,
    tokens: SpecialTokens,
    token_count: usize,
    text: String,
) -> bool {
    let raw = match decoded {
        Some(found) => found@,
        None => "[decode error]"@,
    };
    if is_blank_text(raw) {
        text@ == empty_decode_text(tokens, token_count)
    } else {
        text@ == raw
    }
}

/// The transcription made of what the tokenizer decoded from `token_count`
/// tokens; `decoded` is nothing where the tokenizer could not decode them.
pub fn transcript_text(decoded: Option<String>, tokens: SpecialTokens, token_count: usize) -> (text:
    String)
    ensures
        is_transcript(decoded, tokens, token_count, text),
{
    let raw = match decoded {
        Some(found) => found,
        None => String::from_str("[decode error]"),
    };
    if is_blank(raw.as_str()) {
        let mut text = String::from_str("[Whisper single-ONNX inference] ");
        text.append(tokens.report().as_str());
        text.append(" | tokens=");
        text.append(decimal(token_count as u64).as_str());
        text.append(" (empty decode)");
        text
    } else {
        raw
    }
}

/// The text that stands in for a transcription while only the encoder is
/// run.
pub open spec fn encoder_only_text(shape: Seq<usize>, tokens: SpecialTokens) -> Seq<char> {
    "[Whisper encoder-only] shape="@ + list_text(shape) + " | "@ + tokens.report_text()
        + " (decoder not yet wired)"@
}

/// The text that stands in for a transcription while only the encoder is
/// run: the shape of what the encoder gave, and the special tokens.
pub fn encoder_only_report(shape: &[usize], tokens: SpecialTokens) -> (text: String)
    ensures
        text@ == encoder_only_text(shape@, tokens),
{
    let mut text = String::from_str("[Whisper encoder-only] shape=");
    text.append(debug_list(shape).as_str());
    text.append(" | ");
    text.append(tokens.report().as_str());
    text.append(" (decoder not yet wired)");
    text
}

/// How a loaded model is run.
#[derive(Debug, Clone, Copy, PartialEq, Eq, Structural)]
pub enum Pipeline {
    /// One file holds encoder and decoder: one run gives the logits, which
    /// are read greedily.
    Single,
    /// Encoder and decoder lie in two files: only the encoder is run.
    EncoderOnly,
}

/// Whether `plan` is how a transcription begins: refused where no model is
/// loaded, then where the tokenizer is missing, then where the encoder's
/// path is not set, then where the decoder's is not; else in one run
/// exactly where both paths are the same.
pub open spec fn planned(
    is_loaded: bool,
    has_tokenizer: bool,
    encoder_path: Option<Seq<char>>,
    decoder_path: Option<Seq<char>>,
    plan: Result<Pipeline, AsrError>,
) -> bool {
    if !is_loaded {
        plan == Err::<Pipeline, AsrError>(AsrError::ModelNotLoaded)
    } else if !has_tokenizer {
        plan matches Err(AsrError::InferenceFailed(why)) && why@ == "Tokenizer missing"@
    } else if encoder_path is None {
        plan matches Err(AsrError::InferenceFailed(why)) && why@ == "Encoder path not set"@
    } else if decoder_path is None {
        plan matches Err(AsrError::InferenceFailed(why)) && why@ == "Decoder path not set"@
    } else if encoder_path->Some_0 == decoder_path->Some_0 {
        plan == Ok::<Pipeline, AsrError>(Pipeline::Single)
    } else {
        plan == Ok::<Pipeline, AsrError>(Pipeline::EncoderOnly)
    }
}

/// Decides how a transcription begins from what the model holds.
pub fn plan_transcription(
    is_loaded: bool,
    has_tokenizer: bool,
    encoder_path: Option<&str>,
    decoder_path: Option<&str>,
) -> (plan: Result<Pipeline, AsrError>)
    ensures
        planned(
            is_loaded,
            has_tokenizer,
            match encoder_path {
                Some(path) => Some(path@),
                None => None,
            },
            match decoder_path {
                Some(path) => Some(path@),
                None => None,
            },
            plan,
        ),
{
    if !is_loaded {
        return Err(AsrError::ModelNotLoaded);
    }
    if !has_tokenizer {
        return Err(AsrError::InferenceFailed(String::from_str("Tokenizer missing")));
    }
    match (encoder_path, decoder_path) {
        (None, _) => Err(AsrError::InferenceFailed(String::from_str("Encoder path not set"))),
        (Some(_), None) => Err(
            AsrError::InferenceFailed(String::from_str("Decoder path not set")),
        ),
        (Some(encoder), Some(decoder)) => {
            if String::from_str(encoder) == String::from_str(decoder) {
                Ok(Pipeline::Single)
            } else {
                Ok(Pipeline::EncoderOnly)
            }
        },
    }
}

/// The first of the model's files that is missing, in the order encoder,
/// decoder, tokenizer.
pub open spec fn first_missing_path(
    encoder: Seq<char>,
    decoder: Seq<char>,
    tokenizer: Seq<char>,
    encoder_found: bool,
    decoder_found: bool,
    tokenizer_found: bool,
) -> Option<Seq<char>> {
    if !encoder_found {
        Some(encoder)
    } else if !decoder_found {
        Some(decoder)
    } else if !tokenizer_found {
        Some(tokenizer)
    } else {
        None
    }
}

/// The first of the model's files that was not found, in the order encoder,
/// decoder, tokenizer, or nothing where all were found. It is the file that
/// loading the model fails on.
pub fn first_missing(
    encoder: &str,
    decoder: &str,
    tokenizer: &str,
    encoder_found: bool,
    decoder_found: bool,
    tokenizer_found: bool,
) -> (missing: Option<String>)
    ensures
        first_missing_path(
            encoder@,
            decoder@,
            tokenizer@,
            encoder_found,
            decoder_found,
            tokenizer_found,
        ) == match missing {
            Some(path) => Some(path@),
            None => None,
        },
{
    if !encoder_found {
        Some(String::from_str(encoder))
    } else if !decoder_found {
        Some(String::from_str(decoder))
    } else if !tokenizer_found {
        Some(String::from_str(tokenizer))
    } else {
        None
    }
}

} // verus!
