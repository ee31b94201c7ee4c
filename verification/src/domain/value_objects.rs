//! Values that exist only in validated form.

pub mod email_status;
pub mod new_subscriber;
pub mod password_hash;
pub mod subscriber_email;
pub mod subscriber_id;
pub mod subscriber_name;

pub use email_status::ConfirmationStatus;
pub use new_subscriber::NewSubscriber;
pub use password_hash::PasswordHash;
pub use subscriber_email::SubscriberEmail;
pub use subscriber_id::SubscriberId;
pub use subscriber_name::SubscriberName;
