//! Renders document templates by handing them to an external compiler that
//! reads the document on its standard input and writes the result to its
//! standard output: the arguments it is given, the order in which the
//! exchange with it proceeds, and how its outcome becomes a reply.

pub mod decimal;
pub mod invocation;
pub mod outcome;
pub mod session;
