//! Market-capitalisation ratios between equities, crypto assets and gold.

pub mod assets;
pub mod dispatch;
pub mod error;
pub mod keys;
pub mod providers;
pub mod ratio;
pub mod text;
pub mod urls;
