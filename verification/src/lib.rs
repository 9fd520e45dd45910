//! The decisions behind the household-finance screens: which rows a viewer
//! may see, how registers filter and order them, which state a screen shows,
//! and the sentences it states — each as a verified function over plain
//! values.

pub mod access;
pub mod accounts;
pub mod activity;
pub mod assumptions;
pub mod decisions;
pub mod earmarks;
pub mod entities;
pub mod extraction;
pub mod forecast;
pub mod funding;
pub mod household;
pub mod liquidity;
pub mod navigation;
pub mod order;
pub mod privacy;
pub mod projections;
pub mod rules;
pub mod scenarios;
pub mod settings;
pub mod sharing;
pub mod taxes;
pub mod text;
pub mod timeline;
pub mod today;
