//! Client-side core of a virtual-desktop session service: desktop identity
//! resolution, a lazily filled service cache, the apartment scope that the
//! cache lives under, and the decisions behind each desktop operation.
//!
//! The service itself is reached by the caller: each operation here takes
//! what the service reported (an enumeration, a status code, an identifier)
//! and says what to do or what to return.

mod desktop;
mod error;
mod identity;
mod laws;
mod registry;
mod scope;
mod win;

pub use desktop::{
    create_desktop, get_current_desktop, get_desktop, get_desktop_by_window, get_desktop_count,
    get_desktops, get_idesktop_guid, is_window_on_current_desktop, is_window_on_desktop,
    move_window_to_desktop, remove_desktop, switch_desktop, view_for_window, DesktopTest, Relay,
};
pub use error::{map_win_err, map_window_error, Error, HResult, ELEMENT_NOT_FOUND};
pub use identity::{DesktopInternal, DesktopList, Guid};
pub use registry::{ComObjects, CreationStep, ServiceKind};
pub use scope::{ExecutionScope, ScopeState};
pub use laws::{
    lemma_cached_service_kept, lemma_count_is_enumeration_length, lemma_eq_iff_same_desktop,
    lemma_locate_keeps_index, lemma_switch_to_current_targets_current,
};
