pub mod gemini;
pub mod glm;
pub mod openai;
pub mod qwen;
pub mod qwen_vl;
pub mod request;
