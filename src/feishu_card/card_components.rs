pub mod content_components;
