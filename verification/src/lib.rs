//! Decision logic of a small operations watchdog: periodic liveness probes of
//! HTTP endpoints, a daily check that a backup file is fresh, and chat alerts
//! when either fails. Everything here works on plain values; reading clocks,
//! directories and sockets is left to the program that drives these functions.

pub mod backup_monitor;
pub mod calendar;
pub mod check_backup;
pub mod check_health;
pub mod discord;
pub mod endpoint_monitor;
pub mod lifecycle;
pub mod schedule;
pub mod settings;
