//! Report formatting: the fixed-format success summary and the single-line
//! failure reports, as plain text.

use vstd::prelude::*;

use crate::request::ProjectRequest;
use crate::run::Stage;

verus! {

/// One indented line per dependency identifier, in order.
pub open spec fn spec_dep_lines(deps: Seq<Seq<char>>) -> Seq<char>
    decreases deps.len(),
{
    if deps.len() == 0 {
        Seq::empty()
    } else {
        spec_dep_lines(deps.drop_last()) + "  "@ + deps.last() + "\n"@
    }
}

/// The full success summary: confirmation banner, save-location note,
/// project name, package name, and either one line per dependency or an
/// explicit no-dependencies marker.
pub open spec fn spec_success_report(
    name: Seq<char>,
    package: Seq<char>,
    deps: Seq<Seq<char>>,
) -> Seq<char> {
    "\nProject generated successfully!\nSaved on your folder Downloads \n\n"@
        + "Project name \n  "@ + name + "\n"@ + "Package name \n  "@ + package + "\n"@
        + "Dependencies\n"@ + (if deps.len() == 0 {
        "  No dependencies added\n"@
    } else {
        spec_dep_lines(deps)
    }) + "\n"@
}

/// The single-line failure report for the given stage: which stage failed,
/// then the underlying cause's description.
pub open spec fn spec_failure_report(stage: Stage, cause: Seq<char>) -> Seq<char> {
    (match stage {
        Stage::Fetch => "Error fetching project: "@,
        Stage::Persist => "Error creating file: "@,
    }) + cause
}

/// The overall failure line reported when the run as a whole fails.
pub open spec fn spec_overall_failure_report(cause: Seq<char>) -> Seq<char> {
    "Error generating project: "@ + cause
}

/// Formats the indented dependency lines of the success summary.
fn dep_lines(deps: &Vec<String>) -> (r: String)
    ensures
        r@ == spec_dep_lines(deps.deep_view()),
{
    let mut out = String::new();
    let mut k: usize = 0;
    proof {
        assert(deps.deep_view().take(0) =~= Seq::<Seq<char>>::empty());
    }
    while k < deps.len()
        invariant
            k <= deps.len(),
            out@ == spec_dep_lines(deps.deep_view().take(k as int)),
        decreases deps.len() - k,
    {
        out.append("  ");
        out.append(deps[k].as_str());
        out.append("\n");
        proof {
            let dv = deps.deep_view();
            assert(dv.take(k + 1).drop_last() =~= dv.take(k as int));
            assert(dv.take(k + 1).last() == dv[k as int]);
            assert(out@ =~= spec_dep_lines(dv.take(k + 1)));
        }
        k = k + 1;
    }
    proof {
        assert(deps.deep_view().take(deps.len() as int) =~= deps.deep_view());
    }
    out
}

/// Formats the fixed-format success summary for a completed run of the given
/// request.
pub fn success_report(request: &ProjectRequest) -> (r: String)
    ensures
        r@ == spec_success_report(
            request.name@,
            request.package@,
            request.dependencies.deep_view(),
        ),
{
    let mut out = String::from_str(
        "\nProject generated successfully!\nSaved on your folder Downloads \n\n",
    );
    out.append("Project name \n  ");
    out.append(request.name.as_str());
    out.append("\n");
    out.append("Package name \n  ");
    out.append(request.package.as_str());
    out.append("\n");
    out.append("Dependencies\n");
    if request.dependencies.len() == 0 {
        out.append("  No dependencies added\n");
    } else {
        let lines = dep_lines(&request.dependencies);
        out.append(lines.as_str());
    }
    out.append("\n");
    out
}

/// Formats the single-line failure report naming the failed stage and the
/// underlying cause.
pub fn failure_report(stage: Stage, cause: &str) -> (r: String)
    ensures
        r@ == spec_failure_report(stage, cause@),
{
    let mut out = match stage {
        Stage::Fetch => String::from_str("Error fetching project: "),
        Stage::Persist => String::from_str("Error creating file: "),
    };
    out.append(cause);
    out
}

/// Formats the overall failure line for a failed run.
pub fn overall_failure_report(cause: &str) -> (r: String)
    ensures
        r@ == spec_overall_failure_report(cause@),
{
    let mut out = String::from_str("Error generating project: ");
    out.append(cause);
    out
}

} // verus!
