pub mod feed;
pub mod import;
pub mod link;
pub mod models;
pub mod path;
pub mod pipeline;
pub mod report;
pub mod store;
pub mod text;
