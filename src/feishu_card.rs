pub mod card_components;
pub mod icon;
