pub mod image;
pub mod note;
pub mod plain_text;
