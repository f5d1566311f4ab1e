//! Query builders, naming rules and request handling for a developer
//! workflow tool that talks to a CI server, an issue tracker and a
//! code-hosting service.
pub mod text;
pub mod clauses;
pub mod normalize;
pub mod build_type_locator;
pub mod build_locator;
pub mod issue;
pub mod teamcity;
pub mod youtrack;
pub mod gitlab;
pub mod settings;
pub mod http;
pub mod repo;
pub mod commands;
