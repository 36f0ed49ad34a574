//! The data that handlers exchange with the client and with the site.

pub mod history_response_data;
pub mod lecture;
pub mod navi_response_data;
pub mod video_request_data;
pub mod view_request_data;
