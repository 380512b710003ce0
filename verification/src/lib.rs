//! Core logic of the Outify Spotify backend: conversion of playlist metadata
//! into its serializable shape, construction of Web API requests, the
//! decisions taken on their responses, and the client's credential state.

pub mod text;
pub mod types;
pub mod spotify;
pub mod metadata;
