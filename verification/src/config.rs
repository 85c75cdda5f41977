//! Rendering the solver's configuration text.
//!
//! The configuration is a deterministic key–value document in four
//! bracketed sections — general, task1, task2, output — one
//! `key = value` pair per line, every value stringified verbatim.
//! Writing the rendered text to disk is the embedding application's
//! part.

use vstd::prelude::*;
use vstd::string::StringExecFns;
use crate::task::TaskParams;

verus! {

/// The rendering of the RMSE-sweep flag: a boolean literal.
pub open spec fn bool_seq(b: bool) -> Seq<char> {
    if b {
        "true"@
    } else {
        "false"@
    }
}

/// The full configuration text for the given parameters, with the
/// output data directory embedded verbatim.
pub open spec fn spec_config_text(p: TaskParams, data_dir: Seq<char>) -> Seq<char> {
    "[general]\ntask = "@ + p.task@ + "\nfunc = "@ + p.func@ + "\na = "@ + p.a@ + "\nb = "@ + p.b@
        + "\n\n[task1]\nmethod = "@ + p.task1_method@ + "\neps = "@ + p.eps@ + "\n\n[task2]\nh = "@
        + p.h@ + "\nrmse_sweep = "@ + bool_seq(p.rmse_sweep) + "\n\n[output]\ndata_dir = "@
        + data_dir + "\n"@
}

/// Renders the configuration document for one invocation.
pub fn render_config(params: &TaskParams, data_dir: &str) -> (r: String)
    ensures
        r@ == spec_config_text(*params, data_dir@),
{
    let mut s = String::new();
    s.append("[general]\ntask = ");
    s.append(params.task.as_str());
    s.append("\nfunc = ");
    s.append(params.func.as_str());
    s.append("\na = ");
    s.append(params.a.as_str());
    s.append("\nb = ");
    s.append(params.b.as_str());
    s.append("\n\n[task1]\nmethod = ");
    s.append(params.task1_method.as_str());
    s.append("\neps = ");
    s.append(params.eps.as_str());
    s.append("\n\n[task2]\nh = ");
    s.append(params.h.as_str());
    s.append("\nrmse_sweep = ");
    if params.rmse_sweep {
        s.append("true");
    } else {
        s.append("false");
    }
    s.append("\n\n[output]\ndata_dir = ");
    s.append(data_dir);
    s.append("\n");
    proof {
        assert(s@ =~= spec_config_text(*params, data_dir@));
    }
    s
}

} // verus!
