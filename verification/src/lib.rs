//! Verified core of `tsumugi`: a tool that turns country IP lists (sing-box
//! rule-sets and *ray `geoip.dat` files) into nftables and iproute2 scripts,
//! converts between the two formats and writes systemd units that keep the
//! rules in place.

pub mod text;
pub mod error;
pub mod geoip;
pub mod address;
pub mod generate;
pub mod srs;
pub mod convert;
pub mod read;
pub mod systemd;
pub mod app;
