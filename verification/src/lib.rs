//! Small verified programs, each built around one language idea: structs and
//! methods, enums and matching, generics, traits, loops, and a recursive
//! graph walk. Every executable function carries a contract that pins down
//! what it computes.

mod basics;
mod conversions;
mod data_types;
mod dispatch;
mod division;
mod generics;
mod graph;
mod matching;
mod ownership;
mod point;
mod slices;
mod smart_pointers;
mod summaries;

pub use basics::break_with_value;
pub use basics::frobnicate;
pub use basics::labels;
pub use basics::return_42;
pub use conversions::narrow_to_i8;
pub use conversions::narrow_to_u8;
pub use conversions::try_narrow_to_i8;
pub use conversions::widen_to_i64;
pub use data_types::Hero;
pub use data_types::Position;
pub use dispatch::Dog;
pub use dispatch::Human;
pub use dispatch::Speak;
pub use division::divide;
pub use division::quotient_towards_zero;
pub use division::remainder_towards_zero;
pub use division::safe_divide;
pub use generics::cloning_machine;
pub use generics::erasing_cloning_machine1;
pub use generics::erasing_cloning_machine2;
pub use generics::Pair;
pub use generics::Tuple2;
pub use graph::count_not_visited;
pub use graph::not_visited_weight;
pub use graph::visit_rank;
pub use graph::AlgorithmStep;
pub use graph::EdgeStep;
pub use graph::Graph;
pub use graph::NodeState;
pub use graph::NodeStep;
pub use graph::StepLog;
pub use matching::age_group;
pub use matching::age_group_of;
pub use matching::classify_by_seven;
pub use matching::divisibility_of;
pub use matching::parity_remark;
pub use matching::parity_remark_of;
pub use matching::random_divisibility;
pub use matching::AgeGroup;
pub use matching::Divisibility;
pub use matching::ParityRemark;
pub use ownership::next_int;
pub use ownership::Data;
pub use point::Point;
pub use slices::first_two;
pub use smart_pointers::List;
pub use smart_pointers::MyBox;
pub use summaries::decimal_chars;
pub use summaries::decimal_digit;
pub use summaries::Description;
pub use summaries::NewsArticle;
pub use summaries::Photo;
pub use summaries::Size;
pub use summaries::Summary;
pub use summaries::Tweet;
pub use summaries::Upload;
