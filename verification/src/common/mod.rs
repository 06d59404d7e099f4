//! The wire-format decoders.

pub mod answer;
pub mod header;
pub mod label;
pub mod question;
pub mod question_class;
pub mod question_type;
mod wire;

pub use self::answer::{Answer, AnswerError, AnswerType};
pub use self::header::{Header, Opcode, ResponseCode};
pub use self::label::{LabelSequence, LabelSequenceIterator, StrOrSlice};
pub use self::question::Question;
pub use self::question_class::QuestionClass;
pub use self::question_type::QuestionType;
