//! One dispatcher for each resource family. An operation checks its
//! parameters, writes them in the wire format and hands back the request to
//! issue.

pub mod autocomplete;
pub mod company;
pub mod ip;
pub mod jobtitle;
pub mod location;
pub mod person;
pub mod school;
pub mod skills;

pub use autocomplete::Autocomplete;
pub use company::Company;
pub use ip::IP;
pub use jobtitle::JobTitle;
pub use location::Location;
pub use person::Person;
pub use school::School;
pub use skills::Skill;
