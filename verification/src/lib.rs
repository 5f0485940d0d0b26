//! A desktop activity sampler's verified core.
//!
//! At a fixed interval the surrounding program probes the operating
//! environment for the active window, its owning process, the idle
//! duration and the screensaver state. This crate turns the probes'
//! raw output into a [`sample::Sample`], decides what a tick emits
//! ([`watch::Tracker`]), and validates the startup configuration
//! ([`config`]). All probing, file reading and printing stays outside;
//! the crate works on plain values and is verified.

pub mod config;
pub mod num;
pub mod sample;
pub mod sampler;
pub mod text;
pub mod watch;
