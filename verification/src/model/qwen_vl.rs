use vstd::prelude::*;
use vstd::string::{StrSliceExecFns, StringExecFns};

use crate::model::request::{first_choice_or, first_content_or};

verus! {

/// A question about an image for the Qwen-VL model: the prompt and where the
/// image was uploaded to.
#[derive(Debug)]
pub struct QwenVl {
    prompt: String,
    image_path: String,
}

impl View for QwenVl {
    type V = (Seq<char>, Seq<char>);

    closed spec fn view(&self) -> (Seq<char>, Seq<char>) {
        (self.prompt@, self.image_path@)
    }
}

/// How closely the model looks at an image.
#[derive(Debug, Clone, Copy, PartialEq, Eq, Structural)]
pub enum ImageDetail {
    Auto,
    Low,
    High,
}

/// A request that asks a model about one image.
#[derive(Debug, Clone)]
pub struct VisionRequest {
    pub model: String,
    pub max_tokens: u32,
    pub prompt: String,
    pub image_url: String,
    pub detail: ImageDetail,
}

/// A vision request as plain values.
pub struct VisionRequestView {
    pub model: Seq<char>,
    pub max_tokens: u32,
    pub prompt: Seq<char>,
    pub image_url: Seq<char>,
    pub detail: ImageDetail,
}

impl View for VisionRequest {
    type V = VisionRequestView;

    open spec fn view(&self) -> VisionRequestView {
        VisionRequestView {
            model: self.model@,
            max_tokens: self.max_tokens,
            prompt: self.prompt@,
            image_url: self.image_url@,
            detail: self.detail,
        }
    }
}

/// The file an upload path is read from: a path that starts at `/` is taken
/// from the working directory.
pub open spec fn local_path_of(path: Seq<char>) -> Seq<char> {
    if path.len() > 0 && path[0] == '/' {
        "."@ + path
    } else {
        path
    }
}

/// The standard base64 encoding, with padding, of `bytes`.
pub uninterp spec fn base64_standard(bytes: Seq<u8>) -> Seq<char>;

/// Calls `base64::engine::general_purpose::STANDARD.encode`. The contract
/// claims that the result is the standard padded base64 text of the bytes,
/// which the spec function names.
#[verifier::external_body]
fn encode_base64(bytes: &[u8]) -> (r: String)
    ensures
        r@ == base64_standard(bytes@),
{
    base64::Engine::encode(&base64::engine::general_purpose::STANDARD, bytes)
}

/// A JPEG data URL around base64 text.
pub fn data_url_from_base64(encoded: &str) -> (r: String)
    ensures
        r@ == "data:image/jpeg;base64,"@ + encoded@,
{
    let mut url = "data:image/jpeg;base64,".to_owned();
    url.append(encoded);
    url
}

/// The JPEG data URL of an image.
pub fn image_data_url(image: &[u8]) -> (r: String)
    ensures
        r@ == "data:image/jpeg;base64,"@ + base64_standard(image@),
{
    let encoded = encode_base64(image);
    data_url_from_base64(encoded.as_str())
}

impl QwenVl {
    /// A question with the given prompt about the image at `image_path`.
    pub fn new(prompt: String, image_path: String) -> (r: QwenVl)
        ensures
            r@ == (prompt@, image_path@),
    {
        QwenVl { prompt, image_path }
    }

    /// The file the image is read from.
    pub fn local_image_path(&self) -> (r: String)
        ensures
            r@ == local_path_of(self@.1),
    {
        let path = self.image_path.as_str();
        if !path.is_empty() && path.get_char(0) == '/' {
            let mut local = ".".to_owned();
            local.append(path);
            local
        } else {
            path.to_owned()
        }
    }

    /// The request sent for this question once the image is at `image_url`:
    /// the prompt and the image in one user turn, to `qwen-vl-plus`, with at
    /// most 300 tokens in the answer and the image read in high detail.
    pub fn vision_request(&self, image_url: &str) -> (r: VisionRequest)
        ensures
            r@ == (VisionRequestView {
                model: "qwen-vl-plus"@,
                max_tokens: 300,
                prompt: self@.0,
                image_url: image_url@,
                detail: ImageDetail::High,
            }),
    {
        VisionRequest {
            model: "qwen-vl-plus".to_owned(),
            max_tokens: 300,
            prompt: self.prompt.clone(),
            image_url: image_url.to_owned(),
            detail: ImageDetail::High,
        }
    }
}

/// The text of a Qwen-VL reply, given the contents of its choices in order.
pub fn qwen_vl_reply(contents: &Vec<Option<String>>) -> (r: String)
    ensures
        r@ == first_content_or(contents@, "No response from Qwen-VL"@),
{
    first_choice_or(contents, "No response from Qwen-VL")
}

} // verus!
