//! Verified logic behind the room views of a Matrix client: power levels and
//! permissions, mention completion, room addresses, event actions, polls and
//! composer drafts, and the decisions that the room pages make from the state
//! of a room.

pub mod power_levels;
pub mod permissions;
pub mod text;
pub mod markdown;
pub mod completion;
pub mod addresses;
pub mod message_state;
pub mod event_actions;
pub mod general_page;
pub mod address_completion;
pub mod content;
pub mod edit_details;
pub mod members_list;
pub mod event_row;
pub mod member_selection;
pub mod invite;
pub mod subpages;
pub mod room_history;
pub mod poll;
pub mod create_poll;
pub mod draft;
pub mod indicators;
pub mod timestamps;
pub mod location;
pub mod reactions;
pub mod media;
pub mod room_details;
pub mod timeline_rows;
pub mod thread_panel;
