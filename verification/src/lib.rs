//! An object-tree dispatch engine for a message-bus RPC protocol with
//! interface / object-path / method semantics.
//!
//! A process registers named interfaces (methods, properties, signals)
//! bound to implementation-type identities, stores implementation
//! instances under hierarchical object paths, and routes incoming
//! method-call messages to the matching handler, collecting zero or more
//! outgoing reply and signal messages. Two ownership models exist, fixed
//! per engine instance: a shared one whose handlers only read, so any
//! number of dispatches may run concurrently, and an exclusive one whose
//! handlers may mutate their own instance and queue extra outgoing
//! messages.

pub mod arg;
pub mod assoc;
pub mod crossroads;
pub mod handlers;
pub mod info;
pub mod laws;
pub mod message;
pub mod script;
pub mod strings;

pub use arg::ArgType;
pub use arg::ArgValue;
pub use arg::MethodErr;
pub use crossroads::Crossroads;
pub use crossroads::PathData;
pub use handlers::Handlers;
pub use handlers::MakeHandler;
pub use handlers::Mut;
pub use handlers::MutCtx;
pub use handlers::MutMethod;
pub use handlers::MutMethods;
pub use handlers::Par;
pub use handlers::ParMethod;
pub use handlers::PropGetter;
pub use handlers::PropSetter;
pub use handlers::posthandler;
pub use info::Access;
pub use info::Annotations;
pub use info::Argument;
pub use info::EmitsChangedSignal;
pub use info::IfaceInfo;
pub use info::IfaceInfoBuilder;
pub use info::MethodInfo;
pub use info::MetSigProp;
pub use info::PropInfo;
pub use info::SignalInfo;
pub use info::build_argvec;
pub use message::Message;
pub use message::MessageType;
pub use message::MsgHeaders;
pub use message::msg_headers;
pub use script::CellUpdate;
pub use script::Instance;
pub use script::MethodScript;
pub use script::OutputSpec;
pub use script::ParScript;
pub use script::TreeScript;
pub use strings::IfaceName;
pub use strings::MemberName;
pub use strings::PathName;
