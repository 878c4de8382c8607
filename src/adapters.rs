//! Tool adapters: one per scanning tool, each with its own command allowlist.
use crate::sandbox::{plan_command, CommandPlan, ToolError};
use crate::scope::views;
use crate::text::same_text;
use vstd::prelude::*;
use vstd::string::StringExecFns;

verus! {

/// What an adapter is asked to scan, stripped of dispatch metadata.
#[derive(Clone, Debug)]
pub struct ScanRequest {
    pub target: String,
    pub profile: String,
}

/// The scanning tools known to the registry.
#[derive(Clone, Copy, Debug, PartialEq, Eq, Structural)]
pub enum Tool {
    Nmap,
    Nuclei,
    Zap,
    Nikto,
    Ffuf,
    Amass,
}

/// Time budget of an nmap run, in seconds.
pub const NMAP_TIMEOUT_SECS: u64 = 10;

impl Tool {
    pub open spec fn name_spec(self) -> Seq<char> {
        match self {
            Tool::Nmap => "nmap"@,
            Tool::Nuclei => "nuclei"@,
            Tool::Zap => "zap"@,
            Tool::Nikto => "nikto"@,
            Tool::Ffuf => "ffuf"@,
            Tool::Amass => "amass"@,
        }
    }

    /// Only nmap has a working adapter.
    pub open spec fn supported(self) -> bool {
        self == Tool::Nmap
    }

    pub fn name(&self) -> (r: &'static str)
        ensures
            r@ == self.name_spec(),
    {
        match self {
            Tool::Nmap => "nmap",
            Tool::Nuclei => "nuclei",
            Tool::Zap => "zap",
            Tool::Nikto => "nikto",
            Tool::Ffuf => "ffuf",
            Tool::Amass => "amass",
        }
    }

    /// Looks a tool up by its name, exactly as written.
    pub fn from_name(name: &str) -> (r: Option<Tool>)
        ensures
            r == tool_named(name@),
    {
        if same_text(name, "nmap") {
            Some(Tool::Nmap)
        } else if same_text(name, "nuclei") {
            Some(Tool::Nuclei)
        } else if same_text(name, "zap") {
            Some(Tool::Zap)
        } else if same_text(name, "nikto") {
            Some(Tool::Nikto)
        } else if same_text(name, "ffuf") {
            Some(Tool::Ffuf)
        } else if same_text(name, "amass") {
            Some(Tool::Amass)
        } else {
            None
        }
    }

    /// The command that runs this tool for `req`. Nmap runs `echo` with a
    /// report for the target as its one argument, under the allowlist
    /// `["echo"]`; every other tool fails with `ToolNotSupported`.
    pub fn invocation(&self, req: &ScanRequest) -> (r: Result<CommandPlan, ToolError>)
        ensures
            self.supported() ==> (r matches Ok(p) && p.wf() && p.program_spec() == "echo"@
                && p.args_spec() == seq![sample_nmap_xml(req.target@)]
                && p.allowlist_spec() == seq!["echo"@] && p.timeout_spec() == NMAP_TIMEOUT_SECS),
            !self.supported() ==> (r matches Err(ToolError::ToolNotSupported(n)) && n@ == self.name_spec()),
    {
        match self {
            Tool::Nmap => {
                let payload = sample_nmap_xml_for_target(req.target.as_str());
                let args = vec![payload];
                let allowed = vec![String::from_str("echo")];
                assert(views(args@) =~= seq![sample_nmap_xml(req.target@)]);
                assert(views(allowed@) =~= seq!["echo"@]);
                assert(views(allowed@)[0] == "echo"@);
                plan_command("echo", args, allowed, NMAP_TIMEOUT_SECS)
            },
            _ => Err(ToolError::ToolNotSupported(String::from_str(self.name()))),
        }
    }
}

/// The tool whose name is exactly `s`, if any.
pub open spec fn tool_named(s: Seq<char>) -> Option<Tool> {
    if s == "nmap"@ {
        Some(Tool::Nmap)
    } else if s == "nuclei"@ {
        Some(Tool::Nuclei)
    } else if s == "zap"@ {
        Some(Tool::Zap)
    } else if s == "nikto"@ {
        Some(Tool::Nikto)
    } else if s == "ffuf"@ {
        Some(Tool::Ffuf)
    } else if s == "amass"@ {
        Some(Tool::Amass)
    } else {
        None
    }
}

/// The demonstration report that the nmap adapter echoes for `target`: one
/// host at `target` named `demo.local`, with tcp port 80 open for http.
pub open spec fn sample_nmap_xml(target: Seq<char>) -> Seq<char> {
    "<nmaprun><host><address addr=\""@ + target
        + "\"/><hostnames><hostname name=\"demo.local\"/></hostnames><ports><port protocol=\"tcp\" portid=\"80\"><state state=\"open\"/><service name=\"http\"/></port></ports></host></nmaprun>"@
}

/// Builds the demonstration report for `target`.
pub fn sample_nmap_xml_for_target(target: &str) -> (r: String)
    ensures
        r@ == sample_nmap_xml(target@),
{
    let mut xml = String::from_str("<nmaprun><host><address addr=\"");
    xml.append(target);
    xml.append(
        "\"/><hostnames><hostname name=\"demo.local\"/></hostnames><ports><port protocol=\"tcp\" portid=\"80\"><state state=\"open\"/><service name=\"http\"/></port></ports></host></nmaprun>",
    );
    xml
}

/// A scanning tool's adapter: its name and the command that runs it.
pub trait ToolAdapter {
    fn tool(&self) -> Tool;

    fn name(&self) -> &'static str;

    fn invocation(&self, req: &ScanRequest) -> Result<CommandPlan, ToolError>;
}

pub struct NmapAdapter;

pub struct NucleiAdapter;

pub struct ZapAdapter;

pub struct NiktoAdapter;

pub struct FfufAdapter;

pub struct AmassAdapter;

impl ToolAdapter for NmapAdapter {
    fn tool(&self) -> (r: Tool)
        ensures
            r == Tool::Nmap,
    {
        Tool::Nmap
    }

    fn name(&self) -> (r: &'static str)
        ensures
            r@ == Tool::Nmap.name_spec(),
    {
        Tool::Nmap.name()
    }

    fn invocation(&self, req: &ScanRequest) -> (r: Result<CommandPlan, ToolError>)
        ensures
            r matches Ok(p) && p.wf() && p.program_spec() == "echo"@
                && p.args_spec() == seq![sample_nmap_xml(req.target@)],
    {
        Tool::Nmap.invocation(req)
    }
}

impl ToolAdapter for NucleiAdapter {
    fn tool(&self) -> (r: Tool)
        ensures
            r == Tool::Nuclei,
    {
        Tool::Nuclei
    }

    fn name(&self) -> (r: &'static str)
        ensures
            r@ == Tool::Nuclei.name_spec(),
    {
        Tool::Nuclei.name()
    }

    fn invocation(&self, req: &ScanRequest) -> (r: Result<CommandPlan, ToolError>)
        ensures
            r matches Err(ToolError::ToolNotSupported(n)) && n@ == Tool::Nuclei.name_spec(),
    {
        Tool::Nuclei.invocation(req)
    }
}

impl ToolAdapter for ZapAdapter {
    fn tool(&self) -> (r: Tool)
        ensures
            r == Tool::Zap,
    {
        Tool::Zap
    }

    fn name(&self) -> (r: &'static str)
        ensures
            r@ == Tool::Zap.name_spec(),
    {
        Tool::Zap.name()
    }

    fn invocation(&self, req: &ScanRequest) -> (r: Result<CommandPlan, ToolError>)
        ensures
            r matches Err(ToolError::ToolNotSupported(n)) && n@ == Tool::Zap.name_spec(),
    {
        Tool::Zap.invocation(req)
    }
}

impl ToolAdapter for NiktoAdapter {
    fn tool(&self) -> (r: Tool)
        ensures
            r == Tool::Nikto,
    {
        Tool::Nikto
    }

    fn name(&self) -> (r: &'static str)
        ensures
            r@ == Tool::Nikto.name_spec(),
    {
        Tool::Nikto.name()
    }

    fn invocation(&self, req: &ScanRequest) -> (r: Result<CommandPlan, ToolError>)
        ensures
            r matches Err(ToolError::ToolNotSupported(n)) && n@ == Tool::Nikto.name_spec(),
    {
        Tool::Nikto.invocation(req)
    }
}

impl ToolAdapter for FfufAdapter {
    fn tool(&self) -> (r: Tool)
        ensures
            r == Tool::Ffuf,
    {
        Tool::Ffuf
    }

    fn name(&self) -> (r: &'static str)
        ensures
            r@ == Tool::Ffuf.name_spec(),
    {
        Tool::Ffuf.name()
    }

    fn invocation(&self, req: &ScanRequest) -> (r: Result<CommandPlan, ToolError>)
        ensures
            r matches Err(ToolError::ToolNotSupported(n)) && n@ == Tool::Ffuf.name_spec(),
    {
        Tool::Ffuf.invocation(req)
    }
}

impl ToolAdapter for AmassAdapter {
    fn tool(&self) -> (r: Tool)
        ensures
            r == Tool::Amass,
    {
        Tool::Amass
    }

    fn name(&self) -> (r: &'static str)
        ensures
            r@ == Tool::Amass.name_spec(),
    {
        Tool::Amass.name()
    }

    fn invocation(&self, req: &ScanRequest) -> (r: Result<CommandPlan, ToolError>)
        ensures
            r matches Err(ToolError::ToolNotSupported(n)) && n@ == Tool::Amass.name_spec(),
    {
        Tool::Amass.invocation(req)
    }
}

} // verus!
