//! A privilege-dropping launcher's decision logic: the permission policy for
//! the files it inspects, the name of the companion binary it runs, the
//! ordered ownership chain that authorises a launch, the minimal `PATH` handed
//! to the child, the relay that forwards signals to the child once its
//! process id is known, the reading of the launcher's own arguments and the
//! line a dry run prints.

pub mod perms;
pub mod target;
pub mod chain;
pub mod sanitize;
pub mod relay;
pub mod cli;
pub mod report;
