//! Recovers the license text and copyright line of packages: a catalog of
//! recognised licenses and their conventional file names, a copyright-line
//! extractor, the judgement of answers from a code-hosting service, and the
//! ordered chain of sources (package tree, license endpoint, raw files) that
//! a driver walks probe by probe.

pub mod copyright;
pub mod github;
pub mod license;
pub mod lockfile;
pub mod report;
pub mod resolver;
pub mod text;
