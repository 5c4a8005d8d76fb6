//! Verified core of a music-genre taxonomy harvester.
//!
//! The library parses a taxonomy root page into genre names, parses a genre
//! detail page into artists and related-genre lists, derives the URL slug for
//! a genre, and stores everything through a transactional persistence layer.
//! HTML selection and the relational store are reached through small trusted
//! wrappers; all rules of the pipeline itself are verified.

pub mod db;
pub mod scrape;
pub mod text;
