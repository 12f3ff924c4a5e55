use vstd::prelude::*;

use crate::model::gemini::Gemini;
use crate::model::glm::GLM;
use crate::model::openai::OPENAI;
use crate::model::qwen_vl::QwenVl;
use crate::text::same_text;

verus! {

/// A chat request from a user: the message, the model it is for, and the
/// path of an uploaded image when there is one.
#[derive(Debug, Clone)]
pub struct AIChatRequest {
    pub message: String,
    pub model: String,
    pub image_path: Option<String>,
}

/// What answering a request takes: asking one of the models, or replying at
/// once with a fixed text.
#[derive(Debug)]
pub enum ModelCall {
    OpenAi(OPENAI),
    Qwen(String),
    Glm(GLM),
    Gemini(Gemini),
    QwenVl(QwenVl),
    Reply(String),
}

/// A model call as plain text.
pub enum ModelCallView {
    OpenAi(Seq<char>),
    Qwen(Seq<char>),
    Glm(Seq<char>),
    Gemini(Seq<char>),
    QwenVl(Seq<char>, Seq<char>),
    Reply(Seq<char>),
}

impl View for ModelCall {
    type V = ModelCallView;

    open spec fn view(&self) -> ModelCallView {
        match self {
            ModelCall::OpenAi(q) => ModelCallView::OpenAi(q@),
            ModelCall::Qwen(m) => ModelCallView::Qwen(m@),
            ModelCall::Glm(q) => ModelCallView::Glm(q@),
            ModelCall::Gemini(q) => ModelCallView::Gemini(q@),
            ModelCall::QwenVl(q) => ModelCallView::QwenVl(q@.0, q@.1),
            ModelCall::Reply(text) => ModelCallView::Reply(text@),
        }
    }
}

/// The reply to a Qwen-VL request that comes without an image.
pub open spec fn image_required_notice() -> Seq<char> {
    "需要上传图片才能使用 Qwen VL 模型"@
}

/// The reply to a request for a model that is not served.
pub open spec fn unsupported_model_notice() -> Seq<char> {
    "不支持的模型类型"@
}

/// What a request for `model` with `message` (and maybe an image) is answered by.
pub open spec fn route_of(model: Seq<char>, message: Seq<char>, image: Option<Seq<char>>) -> ModelCallView {
    if model == "openai"@ {
        ModelCallView::OpenAi(message)
    } else if model == "qwen"@ {
        ModelCallView::Qwen(message)
    } else if model == "glm"@ {
        ModelCallView::Glm(message)
    } else if model == "gemini"@ {
        ModelCallView::Gemini(message)
    } else if model == "qwen_vl"@ {
        match image {
            Some(path) => ModelCallView::QwenVl(message, path),
            None => ModelCallView::Reply(image_required_notice()),
        }
    } else {
        ModelCallView::Reply(unsupported_model_notice())
    }
}

impl AIChatRequest {
    /// A request for `model` with `message` and no image.
    pub fn new(message: String, model: String) -> (r: AIChatRequest)
        ensures
            r.message@ == message@,
            r.model@ == model@,
            r.image_path is None,
    {
        AIChatRequest { message, model, image_path: None }
    }

    /// The image path as plain text.
    pub open spec fn image_view(&self) -> Option<Seq<char>> {
        match self.image_path {
            Some(p) => Some(p@),
            None => None,
        }
    }

    /// Which model answers this request, and with what.
    pub fn route(&self) -> (r: ModelCall)
        ensures
            r@ == route_of(self.model@, self.message@, self.image_view()),
    {
        let model = self.model.as_str();
        let message = self.message.as_str();
        if same_text(model, "openai") {
            ModelCall::OpenAi(OPENAI::new(message))
        } else if same_text(model, "qwen") {
            ModelCall::Qwen(message.to_owned())
        } else if same_text(model, "glm") {
            ModelCall::Glm(GLM::new(message))
        } else if same_text(model, "gemini") {
            ModelCall::Gemini(Gemini::new(message))
        } else if same_text(model, "qwen_vl") {
            match &self.image_path {
                Some(path) => ModelCall::QwenVl(QwenVl::new(self.message.clone(), path.clone())),
                None => ModelCall::Reply("需要上传图片才能使用 Qwen VL 模型".to_owned()),
            }
        } else {
            ModelCall::Reply("不支持的模型类型".to_owned())
        }
    }
}

/// The model a request names chooses the call, whether or not an image came
/// with it: `openai`, `qwen`, `glm` and `gemini` get the message; `qwen_vl`
/// gets the message and the image, or the notice without one; any other name
/// gets the notice that the model is not supported.
pub proof fn law_route_follows_model_name(
    model: Seq<char>,
    message: Seq<char>,
    image: Option<Seq<char>>,
)
    ensures
        route_of("openai"@, message, image) == ModelCallView::OpenAi(message),
        route_of("qwen"@, message, image) == ModelCallView::Qwen(message),
        route_of("glm"@, message, image) == ModelCallView::Glm(message),
        route_of("gemini"@, message, image) == ModelCallView::Gemini(message),
        image matches Some(path) ==> route_of("qwen_vl"@, message, image)
            == ModelCallView::QwenVl(message, path),
        image is None ==> route_of("qwen_vl"@, message, image) == ModelCallView::Reply(
            image_required_notice(),
        ),
        model != "openai"@ && model != "qwen"@ && model != "glm"@ && model != "gemini"@ && model
            != "qwen_vl"@ ==> route_of(model, message, image) == ModelCallView::Reply(
            unsupported_model_notice(),
        ),
{
    reveal_strlit("openai");
    reveal_strlit("qwen");
    reveal_strlit("glm");
    reveal_strlit("gemini");
    reveal_strlit("qwen_vl");
    assert("openai"@.len() == 6 && "qwen"@.len() == 4 && "glm"@.len() == 3);
    assert("gemini"@.len() == 6 && "qwen_vl"@.len() == 7);
    assert("openai"@ != "gemini"@) by {
        assert("openai"@[0] != "gemini"@[0]);
    }
}

} // verus!
