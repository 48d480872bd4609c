pub mod moderation;
