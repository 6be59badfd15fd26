//! Notebook data model and rich-text formatting, with a verified conversion
//! between notebooks and Markdown.

pub mod active_formatting;
pub mod api_models;
pub mod documents;
pub mod formatting;
pub mod formatting_order;
pub mod from_markdown;
pub mod front_matter;
pub mod inspector;
pub mod labels;
pub mod lexer;
pub mod notebooks;
pub mod openapi;
pub mod prometheus;
pub mod providers;
pub mod query_data;
pub mod rich_text;
pub mod sorting;
pub mod text;
pub mod timestamps;
pub mod to_markdown;
pub mod tokens;

pub use crate::from_markdown::{markdown_to_cells, markdown_to_notebook};
pub use crate::to_markdown::{cells_to_markdown, notebook_to_markdown};
