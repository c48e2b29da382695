//! Pieces of the request pipeline.

pub mod allow_only_http_post_mutations;
pub mod map_future_with_context;
