//! Order entry for a restaurant till: a menu catalog, an order with line
//! items, tip, tax and amount owed, and a formatted receipt.
//!
//! Money is held as whole cents, so the subtotal is always exact and needs
//! no rounding between operations; the only rounding happens where a tax
//! fraction is applied.
pub mod catalog;
pub mod money;
pub mod order;
pub mod order_id;
pub mod receipt;
mod clock;
pub mod text;
pub mod till;
