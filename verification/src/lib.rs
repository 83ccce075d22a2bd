//! Verified core of the CS2KZ API: SteamIDs in their 64-bit, 32-bit and text forms, styles,
//! permissions, tiers and ranked statuses, problem details for HTTP responses, the decisions
//! taken when records are submitted and queried, the record-count queue of the points daemon,
//! and the checks around Steam's OpenID login.

pub mod string;
pub mod text;
pub mod steam_id;
pub mod kz_steam_id;
pub mod steam_id2;
pub mod record_counts;
pub mod styles;
pub mod permissions;
pub mod ranked_status;
pub mod tier;
pub mod style;
pub mod users;
pub mod problem_details;
pub mod records;
pub mod openid;
pub mod points;
pub mod servers;

