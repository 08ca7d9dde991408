pub mod portfolio_history;
