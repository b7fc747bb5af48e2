pub mod activatemfa;
pub mod login;
pub mod register;
pub mod verifyotp;
