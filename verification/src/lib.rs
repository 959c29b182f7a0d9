//! The verified core of `srcmv`: bounded JSON-RPC framing, exact position
//! conversion, document-symbol resolution, and the selection and outline
//! protocols of a read-only, language-server-backed source selector.

pub mod apply_flow;
pub mod bound_laws;
pub mod bytes;
pub mod commit;
pub mod commit_laws;
pub mod digest;
pub mod edit_command;
pub mod edit_laws;
pub mod edit_report;
pub mod fake_args;
pub mod fake_json;
pub mod fake_laws;
pub mod fake_lsp;
pub mod fake_script;
pub mod fake_wire;
pub mod flow_laws;
pub mod framing;
pub mod json;
pub mod jsonrpc;
pub mod kinds;
pub mod line_index;
pub mod location;
pub mod location_laws;
pub mod message_laws;
pub mod normalize;
pub mod normalize_laws;
pub mod operation_laws;
pub mod order;
pub mod outline;
pub mod outline_command;
pub mod outline_laws;
pub mod position;
pub mod position_laws;
pub mod print_laws;
pub mod query_laws;
pub mod read_flow;
pub mod report_laws;
pub mod resolve;
pub mod select_command;
pub mod select_report;
pub mod selection;
pub mod symbol_laws;
pub mod symbols;
pub mod table_laws;
pub mod terminal;
pub mod text;
pub mod text_map;
pub mod transport;
pub mod transport_laws;
pub mod wire;
pub mod wire_laws;
pub mod wording_laws;
