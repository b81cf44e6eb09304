//! Multimodal input types for LLM inference.

use vstd::prelude::*;
use crate::lm::json::{json_escape, json_string_literal};
use crate::raw;
use crate::raw::InputDataType;
use crate::text::{lemma_seq_join_push, seq_join};
use vstd::string::StringExecFns;
use vstd::string::StringSliceAdditionalSpecFns;

verus! {

broadcast use vstd::string::group_string_axioms;

/// An input to the LLM engine. Models may accept text, images, audio, or
/// combinations thereof depending on their encoder sections.
#[derive(Debug, Clone)]
pub enum Input<'a> {
    /// A text prompt or message.
    Text(&'a str),
    /// Raw image bytes (JPEG, PNG, or the format the model expects).
    Image(&'a [u8]),
    /// Signals the end of an image input sequence (for models that
    /// process multiple image frames).
    ImageEnd,
    /// Raw audio bytes (WAV, PCM, or the format the model expects).
    Audio(&'a [u8]),
    /// Signals the end of an audio input sequence.
    AudioEnd,
}

/// The C-side description of one input: its kind, the bytes it points at
/// (`None` stands for a null data pointer) and their count.
#[derive(Debug, Clone, Copy)]
pub struct InputData<'a> {
    pub type_: InputDataType,
    pub data: Option<&'a [u8]>,
    pub size: usize,
}

/// The raw kind tag of an input.
pub open spec fn spec_input_kind(input: Input) -> InputDataType {
    match input {
        Input::Text(_) => raw::K_INPUT_TEXT,
        Input::Image(_) => raw::K_INPUT_IMAGE,
        Input::ImageEnd => raw::K_INPUT_IMAGE_END,
        Input::Audio(_) => raw::K_INPUT_AUDIO,
        Input::AudioEnd => raw::K_INPUT_AUDIO_END,
    }
}

/// The bytes an input hands to the engine, if any.
pub open spec fn spec_input_bytes(input: Input) -> Option<Seq<u8>> {
    match input {
        Input::Text(s) => Some(s.spec_bytes()),
        Input::Image(b) => Some(b@),
        Input::Audio(b) => Some(b@),
        _ => None,
    }
}

impl<'a> Input<'a> {
    /// Convenience: create a text input.
    pub fn text(s: &'a str) -> (r: Self)
        ensures
            r == Input::Text(s),
    {
        Self::Text(s)
    }

    /// Convenience: create an image input from raw bytes.
    pub fn image(data: &'a [u8]) -> (r: Self)
        ensures
            r == Input::Image(data),
    {
        Self::Image(data)
    }

    /// Convenience: create an audio input from raw bytes.
    pub fn audio(data: &'a [u8]) -> (r: Self)
        ensures
            r == Input::Audio(data),
    {
        Self::Audio(data)
    }

    /// The C-side description of this input: text is handed over as its
    /// UTF-8 bytes, images and audio as their raw bytes, and the end markers
    /// as a null pointer of size zero.
    pub fn to_raw(&self) -> (d: InputData<'a>)
        ensures
            d.type_ == spec_input_kind(*self),
            match spec_input_bytes(*self) {
                Some(bytes) => d.data matches Some(p) && p@ == bytes && d.size == bytes.len(),
                None => d.data is None && d.size == 0,
            },
    {
        match self {
            Input::Text(s) => {
                let bytes = s.as_bytes();
                InputData { type_: raw::K_INPUT_TEXT, data: Some(bytes), size: bytes.len() }
            },
            Input::Image(b) => InputData { type_: raw::K_INPUT_IMAGE, data: Some(*b), size: b.len() },
            Input::ImageEnd => InputData { type_: raw::K_INPUT_IMAGE_END, data: None, size: 0 },
            Input::Audio(b) => InputData { type_: raw::K_INPUT_AUDIO, data: Some(*b), size: b.len() },
            Input::AudioEnd => InputData { type_: raw::K_INPUT_AUDIO_END, data: None, size: 0 },
        }
    }
}

/// The JSON object that stands for one input in a conversation message:
/// text carries its escaped content, images and audio only their kind, and
/// the end markers have no JSON form.
pub open spec fn spec_input_json(input: Input) -> Option<Seq<char>> {
    match input {
        Input::Text(s) => Some("{\"type\":\"text\",\"text\":"@ + json_string_literal(s@) + "}"@),
        Input::Image(_) => Some("{\"type\":\"image\"}"@),
        Input::Audio(_) => Some("{\"type\":\"audio\"}"@),
        _ => None,
    }
}

/// The JSON objects of the inputs that have one, in order.
pub open spec fn spec_json_parts(inputs: Seq<Input>) -> Seq<Seq<char>>
    decreases inputs.len(),
{
    if inputs.len() == 0 {
        Seq::empty()
    } else {
        let prev = spec_json_parts(inputs.drop_last());
        match spec_input_json(inputs.last()) {
            Some(part) => prev.push(part),
            None => prev,
        }
    }
}

/// The JSON `content` array of a conversation message.
pub open spec fn spec_content_json(inputs: Seq<Input>) -> Seq<char> {
    "["@ + seq_join(spec_json_parts(inputs), ","@) + "]"@
}

/// Build the JSON `content` array for the Conversation API from a slice of
/// inputs. Text becomes `{"type":"text","text":"..."}`, images become
/// `{"type":"image"}`, audio becomes `{"type":"audio"}`; the end markers are
/// left out.
pub fn inputs_to_content_json(inputs: &[Input<'_>]) -> (r: String)
    ensures
        r@ == spec_content_json(inputs@),
{
    let mut body = String::new();
    let mut any = false;
    let mut i: usize = 0;
    while i < inputs.len()
        invariant
            i <= inputs@.len(),
            body@ == seq_join(spec_json_parts(inputs@.take(i as int)), ","@),
            any == (spec_json_parts(inputs@.take(i as int)).len() > 0),
        decreases inputs@.len() - i,
    {
        let ghost prev = spec_json_parts(inputs@.take(i as int));
        proof {
            assert(inputs@.take(i + 1).drop_last() =~= inputs@.take(i as int));
            assert(inputs@.take(i + 1).last() == inputs@[i as int]);
        }
        match &inputs[i] {
            Input::Text(s) => {
                proof {
                    lemma_seq_join_push(prev, ","@, spec_input_json(inputs@[i as int])->0);
                }
                if any {
                    body.append(",");
                }
                body.append("{\"type\":\"text\",\"text\":");
                let escaped = json_escape(s);
                body.append(escaped.as_str());
                body.append("}");
                any = true;
            },
            Input::Image(_) => {
                proof {
                    lemma_seq_join_push(prev, ","@, spec_input_json(inputs@[i as int])->0);
                }
                if any {
                    body.append(",");
                }
                body.append("{\"type\":\"image\"}");
                any = true;
            },
            Input::ImageEnd => {},
            Input::Audio(_) => {
                proof {
                    lemma_seq_join_push(prev, ","@, spec_input_json(inputs@[i as int])->0);
                }
                if any {
                    body.append(",");
                }
                body.append("{\"type\":\"audio\"}");
                any = true;
            },
            Input::AudioEnd => {},
        }
        i = i + 1;
    }
    proof {
        assert(inputs@.take(i as int) =~= inputs@);
    }
    let mut out = String::new();
    out.append("[");
    out.append(body.as_str());
    out.append("]");
    out
}

/// Whether an input has a JSON form (every input but the end markers).
pub open spec fn is_content_input(input: Input) -> bool {
    !(input is ImageEnd) && !(input is AudioEnd)
}

/// The content array holds one part per text, image and audio input, in
/// input order, whatever came before: with `kept` the inputs that are not end
/// markers, there are exactly `kept.len()` parts, and the `k`-th is
/// `{"type":"text","text":<literal of s>}` for `Text(s)`,
/// `{"type":"image"}` for an image and `{"type":"audio"}` for audio.
pub proof fn lemma_content_parts(inputs: Seq<Input>)
    ensures
        ({
            let kept = inputs.filter(|x: Input| is_content_input(x));
            &&& spec_json_parts(inputs).len() == kept.len()
            &&& forall|k: int|
                0 <= k < kept.len() ==> spec_json_parts(inputs)[k] == match kept[k] {
                    Input::Text(s) => "{\"type\":\"text\",\"text\":"@ + json_string_literal(s@)
                        + "}"@,
                    Input::Image(_) => "{\"type\":\"image\"}"@,
                    _ => "{\"type\":\"audio\"}"@,
                }
            &&& forall|k: int| 0 <= k < kept.len() ==> is_content_input(#[trigger] kept[k])
        }),
    decreases inputs.len(),
{
    reveal(Seq::filter);
    let pred = |x: Input| is_content_input(x);
    if inputs.len() > 0 {
        lemma_content_parts(inputs.drop_last());
        let prev = inputs.drop_last().filter(pred);
        assert(inputs.filter(pred) == if pred(inputs.last()) {
            prev.push(inputs.last())
        } else {
            prev
        });
    }
}

/// The content is a JSON array: it opens with `[` and closes with `]`, and
/// inputs without any JSON form (only end markers, or none) give `[]`.
pub proof fn lemma_content_json_brackets(inputs: Seq<Input>)
    ensures
        spec_content_json(inputs).len() >= 2,
        spec_content_json(inputs)[0] == '[',
        spec_content_json(inputs).last() == ']',
        spec_json_parts(inputs).len() == 0 ==> spec_content_json(inputs) == seq!['[', ']'],
{
    reveal_strlit("[");
    reveal_strlit("]");
    let body = seq_join(spec_json_parts(inputs), ","@);
    let c = spec_content_json(inputs);
    assert(c == "["@ + body + "]"@);
    assert(c[0] == '[');
    assert(c[c.len() - 1] == ']');
    if spec_json_parts(inputs).len() == 0 {
        assert(body =~= Seq::<char>::empty());
        assert(c =~= seq!['[', ']']);
    }
}

} // verus!
