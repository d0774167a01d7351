//! Network discovery for a security consulting toolkit.
//!
//! The core is a TCP connect-scanner: `ip` expands a CIDR range into its
//! addresses, and `discovery` chooses the ports, folds the outcome of every
//! probe into the hosts found alive, and plans the bounded fan-out of the
//! probes, which the caller performs. Around it stand the Nmap side (`nmap`
//! builds command lines and validates targets, `nmap_xml` reads reports),
//! asset classification (`inventory`), the data models of the toolkit
//! (`models`, `grc`, `reporting`) and the parsing of request parameters
//! (`params`). `text` holds the character-level helpers they share.
pub mod ip;
pub mod discovery;
pub mod models;
pub mod nmap;
pub mod nmap_xml;
pub mod inventory;
pub mod params;
pub mod grc;
pub mod reporting;
pub mod text;
