//! Configuration data: the plain settings the core consumes, and the
//! default for each. Reading settings from a file or the environment
//! happens outside the library; the library only defines the shape and
//! the defaults.

use vstd::prelude::*;

verus! {

/// Which notification event kinds are delivered.
pub struct WebhookEvents {
    /// Notify on a purchase.
    pub purchase: bool,
    /// Notify on a listing.
    pub listing: bool,
    /// Notify on a sale.
    pub sale: bool,
    /// Notify on an idle-teleport.
    pub afk: bool,
    /// Notify on an error.
    pub error: bool,
    /// Notify on startup.
    pub startup: bool,
}

impl Default for WebhookEvents {
    /// Every event kind is delivered by default.
    fn default() -> (r: Self)
        ensures
            r.purchase && r.listing && r.sale && r.afk && r.error && r.startup,
    {
        WebhookEvents {
            purchase: true,
            listing: true,
            sale: true,
            afk: true,
            error: true,
            startup: true,
        }
    }
}

/// Where and how notifications are delivered.
pub struct WebhookConfig {
    /// Whether notifications are delivered at all.
    pub enabled: bool,
    /// The delivery endpoint.
    pub url: String,
    /// The sender name shown with each notification.
    pub display_name: String,
    /// Which event kinds are delivered.
    pub events: WebhookEvents,
}

impl Default for WebhookConfig {
    /// Delivery is off by default, with an empty endpoint, the default
    /// sender name, and every event kind enabled.
    fn default() -> (r: Self)
        ensures
            !r.enabled,
            r.url@.len() == 0,
            r.display_name@ == "DonutSMP Map Flipper"@,
            r.events.purchase && r.events.listing && r.events.sale && r.events.afk
                && r.events.error && r.events.startup,
    {
        WebhookConfig {
            enabled: false,
            url: String::new(),
            display_name: default_display_name(),
            events: WebhookEvents::default(),
        }
    }
}

/// The settings the core consumes.
pub struct Config {
    /// The server host name.
    pub host: String,
    /// The server port.
    pub port: u16,
    /// The account name.
    pub username: String,
    /// The authentication scheme name.
    pub auth: String,
    /// The protocol version text.
    pub version: String,
    /// The ceiling price: only listings strictly below it are bought.
    pub max_buy_price: u32,
    /// The per-unit sell price, as listing-command text.
    pub sell_price: String,
    /// The cap on listing attempts per cycle.
    pub max_listings_per_cycle: u32,
    /// The inter-cycle delay, in milliseconds.
    pub delay_between_cycles: u64,
    /// The wait after joining before the loop starts, in milliseconds.
    pub delay_after_join: u64,
    /// The bounded-wait timeout for a window open, in milliseconds.
    pub window_timeout: u64,
    /// Whether event debugging output is wanted.
    pub debug_events: bool,
    /// The notification settings.
    pub webhook: WebhookConfig,
}

/// The default for a flag that starts enabled.
pub fn default_true() -> (r: bool)
    ensures
        r,
{
    true
}

/// The default server host name.
pub fn default_host() -> (r: String)
    ensures
        r@ == "donutsmp.net"@,
{
    String::from_str("donutsmp.net")
}

/// The default server port.
pub fn default_port() -> (r: u16)
    ensures
        r == 25565,
{
    25565
}

/// The default account name.
pub fn default_username() -> (r: String)
    ensures
        r@ == "BOT_USERNAME"@,
{
    String::from_str("BOT_USERNAME")
}

/// The default authentication scheme name.
pub fn default_auth() -> (r: String)
    ensures
        r@ == "microsoft"@,
{
    String::from_str("microsoft")
}

/// The default protocol version text.
pub fn default_version() -> (r: String)
    ensures
        r@ == "1.21.11"@,
{
    String::from_str("1.21.11")
}

/// The default ceiling price.
pub fn default_max_buy_price() -> (r: u32)
    ensures
        r == 2500,
{
    2500
}

/// The default per-unit sell price text.
pub fn default_sell_price() -> (r: String)
    ensures
        r@ == "9.9k"@,
{
    String::from_str("9.9k")
}

/// The default cap on listing attempts per cycle.
pub fn default_max_listings_per_cycle() -> (r: u32)
    ensures
        r == 20,
{
    20
}

/// The default inter-cycle delay, in milliseconds.
pub fn default_delay_between_cycles() -> (r: u64)
    ensures
        r == 5000,
{
    5000
}

/// The default wait after joining, in milliseconds.
pub fn default_delay_after_join() -> (r: u64)
    ensures
        r == 5000,
{
    5000
}

/// The default window-open timeout, in milliseconds.
pub fn default_window_timeout() -> (r: u64)
    ensures
        r == 15000,
{
    15000
}

/// The default sender name for notifications.
pub fn default_display_name() -> (r: String)
    ensures
        r@ == "DonutSMP Map Flipper"@,
{
    String::from_str("DonutSMP Map Flipper")
}

} // verus!
