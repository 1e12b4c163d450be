//! Client-side building blocks for the Lark / Feishu open platform: message
//! card components and a pull-based iterator over token-paginated listings.

pub mod feishu_card;
pub mod pagination;
pub mod listing;
