//! Event-channel names.
//!
//! The orchestrator publishes fire-and-forget notifications to listening
//! windows.  This module pins down the channel each notification goes out
//! on.  Symbol-scoped channels use the raw symbol, unlike window labels,
//! which sanitize it; that asymmetry is deliberate and kept.

use vstd::prelude::*;

verus! {

/// The channel carrying the new lock value after a lock mutation.
pub open spec fn lock_channel_name() -> Seq<char> {
    "lock-toggled"@
}

/// The channel carrying the opaque border-visibility signal.
pub open spec fn border_channel_name() -> Seq<char> {
    "border-toggled"@
}

/// The payload-free channel signalled when an overlay moves or resizes.
pub open spec fn moved_channel_name() -> Seq<char> {
    "window-moved"@
}

/// The data channel of one symbol: fixed prefix plus the raw symbol.
pub open spec fn data_channel_of(symbol: Seq<char>) -> Seq<char> {
    "kis-ticker-data-"@ + symbol
}

/// The error channel of one symbol: fixed prefix plus the raw symbol.
pub open spec fn error_channel_of(symbol: Seq<char>) -> Seq<char> {
    "kis-ticker-error-"@ + symbol
}

/// The channel on which a lock mutation is announced.
pub fn lock_channel() -> (r: String)
    ensures
        r@ == lock_channel_name(),
{
    String::from_str("lock-toggled")
}

/// The channel on which the border-visibility signal is forwarded verbatim.
pub fn border_channel() -> (r: String)
    ensures
        r@ == border_channel_name(),
{
    String::from_str("border-toggled")
}

/// The channel an overlay signals on any move or resize.
pub fn moved_channel() -> (r: String)
    ensures
        r@ == moved_channel_name(),
{
    String::from_str("window-moved")
}

/// The channel a data update for `symbol` is published on; the payload is
/// forwarded verbatim and never interpreted here.
pub fn data_channel(symbol: &String) -> (r: String)
    ensures
        r@ == data_channel_of(symbol@),
{
    String::from_str("kis-ticker-data-").concat(symbol.as_str())
}

/// The channel a data error for `symbol` is published on; the message is
/// forwarded verbatim and never interpreted here.
pub fn error_channel(symbol: &String) -> (r: String)
    ensures
        r@ == error_channel_of(symbol@),
{
    String::from_str("kis-ticker-error-").concat(symbol.as_str())
}

/// Symbol-scoped channels never collide: two symbols share a data or an
/// error channel only when they are the same symbol, and no data channel is
/// ever an error channel.  An event published for one symbol therefore
/// reaches no other symbol's channel.
pub proof fn lemma_symbol_channels_distinct(s1: Seq<char>, s2: Seq<char>)
    ensures
        s1 != s2 ==> data_channel_of(s1) != data_channel_of(s2),
        s1 != s2 ==> error_channel_of(s1) != error_channel_of(s2),
        data_channel_of(s1) != error_channel_of(s2),
{
    reveal_strlit("kis-ticker-data-");
    reveal_strlit("kis-ticker-error-");
    if data_channel_of(s1) == data_channel_of(s2) {
        assert(data_channel_of(s1).len() == data_channel_of(s2).len());
        assert(s1.len() == s2.len());
        assert forall|i: int| 0 <= i < s1.len() implies s1[i] == s2[i] by {
            assert(data_channel_of(s1)["kis-ticker-data-"@.len() + i] == s1[i]);
            assert(data_channel_of(s2)["kis-ticker-data-"@.len() + i] == s2[i]);
        }
        assert(s1 =~= s2);
    }
    if error_channel_of(s1) == error_channel_of(s2) {
        assert(error_channel_of(s1).len() == error_channel_of(s2).len());
        assert(s1.len() == s2.len());
        assert forall|i: int| 0 <= i < s1.len() implies s1[i] == s2[i] by {
            assert(error_channel_of(s1)["kis-ticker-error-"@.len() + i] == s1[i]);
            assert(error_channel_of(s2)["kis-ticker-error-"@.len() + i] == s2[i]);
        }
        assert(s1 =~= s2);
    }
    assert(data_channel_of(s1)[11] == 'd');
    assert(error_channel_of(s2)[11] == 'e');
}

} // verus!
