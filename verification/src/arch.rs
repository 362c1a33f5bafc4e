//! Processor architectures that the hypervisor runs on.

pub mod intel;
