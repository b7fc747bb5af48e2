pub mod changepassword;
pub mod getallusers;
pub mod getuserid;
pub mod updateprofile;
pub mod uploadpicture;
