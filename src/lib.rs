//! Pedigree, breeding and health logic of a pigeon loft manager: a
//! pedigree graph with its walks and kinship measures, the rules that score
//! and schedule breeding pairs, and the record types of the health book.
pub mod health;
pub mod pigeon;
pub mod pedigree;
pub mod pedigree_service;
pub mod breeding;
pub mod statements;
