use vstd::prelude::*;

verus! {

/// How many times the board asks whether the Wi-Fi link is up before it
/// gives up (100 ms apart: five seconds).
pub const CONNECT_ATTEMPTS: u32 = 50;

/// How long the board reads the HTTP answer, in milliseconds.
pub const RESPONSE_WINDOW_MS: u64 = 20_000;

/// What the Wi-Fi controller answered when asked whether it is connected.
#[derive(Debug, Clone, Copy, PartialEq, Eq, Structural)]
pub enum LinkStatus {
    Connected,
    NotConnected,
    Failed,
}

/// What the board does after asking.
#[derive(Debug, Clone, Copy, PartialEq, Eq, Structural)]
pub enum ConnectStep {
    /// The link is up: go on with DHCP.
    Proceed,
    /// Wait 100 ms and ask again; this many answers were "not yet".
    WaitAndRetry(u32),
    /// Too many "not yet" answers: fail as not initialised.
    GiveUp,
    /// The controller reported an error: fail with it.
    Fail,
}

/// The step after the controller's answer, `retries` "not yet" answers
/// having come before it.
pub fn next_connect_step(retries: u32, status: LinkStatus) -> (step: ConnectStep)
    requires
        retries < u32::MAX,
    ensures
        step == (match status {
            LinkStatus::Connected => ConnectStep::Proceed,
            LinkStatus::Failed => ConnectStep::Fail,
            LinkStatus::NotConnected => if retries + 1 == CONNECT_ATTEMPTS {
                ConnectStep::GiveUp
            } else {
                ConnectStep::WaitAndRetry((retries + 1) as u32)
            },
        }),
{
    match status {
        LinkStatus::Connected => ConnectStep::Proceed,
        LinkStatus::NotConnected => {
            let retries = retries + 1;
            if retries == CONNECT_ATTEMPTS {
                ConnectStep::GiveUp
            } else {
                ConnectStep::WaitAndRetry(retries)
            }
        },
        LinkStatus::Failed => ConnectStep::Fail,
    }
}

/// The time (in milliseconds since boot) until which the answer is read.
pub fn response_deadline(now_ms: u64) -> (deadline: u64)
    requires
        now_ms + RESPONSE_WINDOW_MS <= u64::MAX,
    ensures
        deadline == now_ms + RESPONSE_WINDOW_MS,
{
    now_ms + RESPONSE_WINDOW_MS
}

/// Reading goes on until the clock has passed the deadline.
pub fn keep_reading(now_ms: u64, deadline: u64) -> (more: bool)
    ensures
        more == (now_ms <= deadline),
{
    !(now_ms > deadline)
}

/// The colour a banner is drawn in.
#[derive(Debug, Clone, Copy, PartialEq, Eq, Structural)]
pub enum BannerColor {
    Blue,
    Red,
}

/// Information is drawn in blue, errors in red.
pub fn banner_color(info: bool) -> (color: BannerColor)
    ensures
        color == (if info {
            BannerColor::Blue
        } else {
            BannerColor::Red
        }),
{
    if info {
        BannerColor::Blue
    } else {
        BannerColor::Red
    }
}

} // verus!
