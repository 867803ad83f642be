pub mod telegram_subscription;
