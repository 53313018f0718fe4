//! Verified logic of the WS63 RF OS-adapter layer: header checks, frame parsers,
//! bounded queues, timer and scheduler state machines.
#![allow(unused_imports)]

pub mod error;
pub mod image;
pub mod interrupt;
pub mod sae_bounds;
pub mod diag_text;
pub mod bytes;
pub mod bridge;
pub mod slot_queue;
pub mod event_queues;
pub mod supplicant;
pub mod wifi;
pub mod timer;
pub mod sched;
pub mod osal_queue;
pub mod osal_wait;
pub mod log;
pub mod backend;
pub mod uapi;
pub mod compiler_rt;
pub mod wal;
pub mod cstr;
pub mod frw;
pub mod heap_trace;
pub mod eloop_diag;
pub mod osal_irq;
pub mod netif;
pub mod crypto_stats;
pub mod supp_diag;
pub mod pmp;
pub mod keys;
pub mod supp_assoc;
pub mod supp_poll;
