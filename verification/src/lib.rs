//! Verified codec for the common 8-byte ICMP message header (ICMPv4 and
//! ICMPv6), together with the RFC 1071 Internet checksum primitive used to
//! validate and recompute the header's checksum field.

pub mod checksum;
pub mod icmp;
