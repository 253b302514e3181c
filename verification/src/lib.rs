//! Verified core of a Matrix chat client's calling, bot-sender and room-navigation logic.
pub mod text;
pub mod assoc;
pub mod random;
pub mod call_state;
pub mod matrixrtc;
pub mod livekit;
pub mod media_capture;
pub mod webrtc_session;
pub mod webrtc_manager;
pub mod ids;
pub mod sender;
pub mod typing;
pub mod membership;
pub mod bot_modals;
pub mod members;
pub mod botfather_panel;
pub mod botfather_settings;
pub mod live_id;
pub mod rooms;
pub mod dock;
pub mod app_state;
pub mod call_ui;
pub mod logging;
pub mod widgets;
pub mod upload;
