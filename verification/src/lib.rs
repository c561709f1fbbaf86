//! Logic of a two-board radio-controlled car and its host dashboard: the
//! control packet, the ESP-NOW frame envelope, link supervision, pairing
//! persistence and the link layer; joystick, drive and current-sense
//! mappings; the boards' loop decisions; USB frame reassembly; and the
//! dashboard's telemetry model, command grammar and event log.
pub mod protocol;
pub mod frame;
pub mod keepalive;
pub mod pairing;
pub mod espnow;
pub mod drive;
pub mod current;
pub mod hbridge;
pub mod ibt2;
pub mod motor;
pub mod host_proto;
pub mod joystick;
pub mod gateway;
pub mod vehicle;
pub mod controller;
pub mod usb_frame;
pub mod pitwall;
pub mod command;
pub mod event_log;
