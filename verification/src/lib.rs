//! A minimal private-cloud control plane.
//!
//! The crate holds the rules of two services and of their clients. A *data
//! center node* keeps the metadata of files, operating-system images,
//! machines and instances, drives the lifecycle of its instances and moves
//! files in and out of its storage as ordered byte-range chunks. A
//! *resolver* keeps a registry of nodes and places provisioning requests
//! onto them after checking the capacity that a node reports.
//!
//! Everything here works on plain values. Network transport, file access
//! and the launching of hypervisor processes are left to the program that
//! embeds the library: it performs the actions that the functions of this
//! crate hand out and reports their outcomes back.
//!
//! - [`model`]: the entities, each with its mathematical view.
//! - [`transfer`]: cutting a file into chunks and rebuilding it.
//! - [`node_state`]: the state of a node as a mathematical value, the
//!   state machine of its requests, and the laws that hold of every run.
//! - [`node`]: the node itself.
//! - [`resolver`]: the registry and the placement of requests.
//! - [`launcher`]: what the launcher of virtual machines is asked for.
//! - [`cli`], [`client`], [`session`]: the command lines of the clients
//!   and the course of their commands.
//! - [`table`], [`ident`], [`error`]: ordered tables, identifiers and
//!   failures.

pub mod cli;
pub mod client;
pub mod error;
pub mod ident;
pub mod launcher;
pub mod model;
pub mod node;
pub mod node_state;
pub mod resolver;
pub mod session;
pub mod table;
pub mod transfer;
