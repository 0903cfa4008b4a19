//! The argument bundles handed to the external security tools, and the
//! per-target places where they write their output.

use vstd::prelude::*;
use vstd::string::StrSliceExecFns;
use crate::task::copy_texts;
use crate::text::{chars_of, occurs_at, occurs_here};

verus! {

/// The word list that gobuster uses when none is given.
pub const DEFAULT_WORDLIST: &'static str = "/usr/share/wordlists/dirbuster/directory-list-2.3-medium.txt";

/// `s` with every occurrence of `from` replaced by `to`, matches taken from the
/// left without overlap (as `str::replace` does).
pub open spec fn replaced(s: Seq<char>, from: Seq<char>, to: Seq<char>) -> Seq<char>
    decreases s.len(),
{
    if from.len() == 0 || s.len() < from.len() {
        s
    } else if s.take(from.len() as int) == from {
        to + replaced(s.skip(from.len() as int), from, to)
    } else {
        seq![s[0]] + replaced(s.skip(1), from, to)
    }
}

/// A target as a directory name: URL schemes dropped, path separators as `_`.
pub open spec fn safe_name(target: Seq<char>) -> Seq<char> {
    replaced(replaced(replaced(target, "http://"@, ""@), "https://"@, ""@), "/"@, "_"@)
}

/// Replaces every occurrence of `from` in `s` by `to`.
pub fn replace_text(s: &str, from: &str, to: &str) -> (r: String)
    requires
        from@.len() > 0,
    ensures
        r@ == replaced(s@, from@, to@),
{
    let cs = chars_of(s);
    let pat = chars_of(from);
    let n = cs.len();
    let m = pat.len();
    let mut out = String::new();
    let mut i: usize = 0;
    assert(s@.skip(0) =~= s@);
    assert(out@ + replaced(s@, from@, to@) =~= replaced(s@, from@, to@));
    while i < n && m <= n - i
        invariant
            cs@ == s@,
            pat@ == from@,
            n == cs@.len(),
            m == pat@.len(),
            m > 0,
            i <= n,
            out@ + replaced(s@.skip(i as int), from@, to@) == replaced(s@, from@, to@),
        decreases n - i,
    {
        let ghost rest = s@.skip(i as int);
        if occurs_here(&cs, &pat, i) {
            assert(rest.take(m as int) =~= cs@.subrange(i as int, i + m));
            assert(rest.skip(m as int) =~= s@.skip(i + m));
            let ghost before = out@;
            out.append(to);
            assert(before + (to@ + replaced(s@.skip(i + m), from@, to@)) =~= out@ + replaced(
                s@.skip(i + m),
                from@,
                to@,
            ));
            i = i + m;
        } else {
            assert(rest.take(m as int) =~= cs@.subrange(i as int, i + m));
            assert(!occurs_at(cs@, pat@, i as int));
            assert(rest.skip(1) =~= s@.skip(i + 1));
            let ghost before = out@;
            out.append(s.substring_char(i, i + 1));
            assert(s@.subrange(i as int, i + 1) =~= seq![rest[0]]);
            assert(out@ + replaced(s@.skip(i + 1), from@, to@) =~= before + (seq![rest[0]] + replaced(
                s@.skip(i + 1),
                from@,
                to@,
            )));
            i = i + 1;
        }
    }
    let ghost before = out@;
    out.append(s.substring_char(i, n));
    assert(s@.subrange(i as int, n as int) =~= s@.skip(i as int));
    out
}

/// The directory name for a target.
pub fn safe_target_name(target: &str) -> (r: String)
    ensures
        r@ == safe_name(target@),
{
    proof {
        reveal_strlit("http://");
        reveal_strlit("https://");
        reveal_strlit("/");
    }
    let a = replace_text(target, "http://", "");
    let b = replace_text(a.as_str(), "https://", "");
    replace_text(b.as_str(), "/", "_")
}

/// Where the tools keep their output for a target, by its directory name.
pub open spec fn log_dir_of(name: Seq<char>) -> Seq<char> {
    "fenrir_logs/"@ + name
}

pub open spec fn gobuster_log_of(url: Seq<char>) -> Seq<char> {
    log_dir_of(safe_name(url)) + "/gobuster_scan.log"@
}

/// gobuster in directory mode on `url` with a word list, the extra flags
/// verbatim, and its output under the target's log directory.
pub open spec fn gobuster_args_of(url: Seq<char>, wordlist: Seq<char>, flags: Seq<Seq<char>>) -> Seq<
    Seq<char>,
> {
    seq!["dir"@, "-u"@, url, "-w"@, wordlist] + flags + seq!["-o"@, gobuster_log_of(url)]
}

/// nmap keeps its output under the target as given, not sanitised.
pub open spec fn nmap_xml_of(target: Seq<char>) -> Seq<char> {
    log_dir_of(target) + "/nmap_scan.xml"@
}

/// nmap with the extra flags verbatim, XML output, then the target.
pub open spec fn nmap_args_of(target: Seq<char>, flags: Seq<Seq<char>>) -> Seq<Seq<char>> {
    flags + seq!["-oX"@, nmap_xml_of(target), target]
}

pub open spec fn sqlmap_dir_of(url: Seq<char>) -> Seq<char> {
    log_dir_of(safe_name(url)) + "/sqlmap"@
}

/// sqlmap in batch mode, on the URL when there is one, with an output
/// directory when one could be made, then the extra flags verbatim.
pub open spec fn sqlmap_args_of(url: Option<Seq<char>>, out_dir: Option<Seq<char>>, flags: Seq<Seq<char>>) -> Seq<
    Seq<char>,
> {
    let with_url = match url {
        Some(u) => seq!["--batch"@, "-u"@, u],
        None => seq!["--batch"@],
    };
    let with_dir = match out_dir {
        Some(d) => with_url + seq!["--output-dir"@, d],
        None => with_url,
    };
    with_dir + flags
}

pub open spec fn report_path_of(target: Seq<char>) -> Seq<char> {
    "fenrir_reports/"@ + safe_name(target) + "_report.md"@
}

fn push_all(out: &mut Vec<String>, items: &Vec<String>)
    ensures
        final(out).deep_view() == old(out).deep_view() + items.deep_view(),
{
    let ghost start = out.deep_view();
    let mut copy = copy_texts(items);
    out.append(&mut copy);
    assert(out.deep_view() =~= start + items.deep_view());
}

fn owned(s: &str) -> (r: String)
    ensures
        r@ == s@,
{
    String::from_str(s)
}

/// The log directory of a target, by its directory name.
pub fn log_dir(name: &str) -> (r: String)
    ensures
        r@ == log_dir_of(name@),
{
    let mut d = owned("fenrir_logs/");
    d.append(name);
    d
}

/// The file where gobuster writes what it found on `url`.
pub fn gobuster_log_path(url: &str) -> (r: String)
    ensures
        r@ == gobuster_log_of(url@),
{
    let name = safe_target_name(url);
    let mut p = log_dir(name.as_str());
    p.append("/gobuster_scan.log");
    p
}

/// The arguments of a gobuster run.
pub fn gobuster_args(url: &str, wordlist: &str, flags: &Vec<String>) -> (r: Vec<String>)
    ensures
        r.deep_view() == gobuster_args_of(url@, wordlist@, flags.deep_view()),
{
    let mut a: Vec<String> = Vec::new();
    a.push(owned("dir"));
    a.push(owned("-u"));
    a.push(owned(url));
    a.push(owned("-w"));
    a.push(owned(wordlist));
    assert(a.deep_view() =~= seq!["dir"@, "-u"@, url@, "-w"@, wordlist@]);
    push_all(&mut a, flags);
    let ghost mid = a.deep_view();
    a.push(owned("-o"));
    a.push(gobuster_log_path(url));
    assert(a.deep_view() =~= mid + seq!["-o"@, gobuster_log_of(url@)]);
    assert(a.deep_view() =~= gobuster_args_of(url@, wordlist@, flags.deep_view()));
    a
}

/// The file where nmap writes its XML report on `target`.
pub fn nmap_xml_path(target: &str) -> (r: String)
    ensures
        r@ == nmap_xml_of(target@),
{
    let mut p = log_dir(target);
    p.append("/nmap_scan.xml");
    p
}

/// The arguments of an nmap run.
pub fn nmap_args(target: &str, flags: &Vec<String>) -> (r: Vec<String>)
    ensures
        r.deep_view() == nmap_args_of(target@, flags.deep_view()),
{
    let mut a: Vec<String> = Vec::new();
    push_all(&mut a, flags);
    a.push(owned("-oX"));
    a.push(nmap_xml_path(target));
    a.push(owned(target));
    assert(a.deep_view() =~= nmap_args_of(target@, flags.deep_view()));
    a
}

/// The directory where sqlmap keeps its output on `url`.
pub fn sqlmap_output_dir(url: &str) -> (r: String)
    ensures
        r@ == sqlmap_dir_of(url@),
{
    let name = safe_target_name(url);
    let mut p = log_dir(name.as_str());
    p.append("/sqlmap");
    p
}

/// The arguments of a sqlmap run.
pub fn sqlmap_args(url: Option<&str>, out_dir: Option<&str>, flags: &Vec<String>) -> (r: Vec<String>)
    ensures
        r.deep_view() == sqlmap_args_of(
            match url {
                Some(u) => Some(u@),
                None => None,
            },
            match out_dir {
                Some(d) => Some(d@),
                None => None,
            },
            flags.deep_view(),
        ),
{
    let mut a: Vec<String> = Vec::new();
    a.push(owned("--batch"));
    if let Some(u) = url {
        a.push(owned("-u"));
        a.push(owned(u));
    }
    if let Some(d) = out_dir {
        a.push(owned("--output-dir"));
        a.push(owned(d));
    }
    push_all(&mut a, flags);
    proof {
        let uv = match url {
            Some(u) => Some(u@),
            None => None,
        };
        let dv = match out_dir {
            Some(d) => Some(d@),
            None => None,
        };
        assert(a.deep_view() =~= sqlmap_args_of(uv, dv, flags.deep_view()));
    }
    a
}

/// The file where the report on `target` is written.
pub fn report_path(target: &str) -> (r: String)
    ensures
        r@ == report_path_of(target@),
{
    let name = safe_target_name(target);
    let mut p = owned("fenrir_reports/");
    p.append(name.as_str());
    p.append("_report.md");
    p
}

/// What was found of gobuster's log for a target.
#[derive(Clone, Copy, Debug, PartialEq, Eq, Structural)]
pub enum GobusterLog {
    Missing,
    Empty,
    Found,
}

pub open spec fn report_header_of(target: Seq<char>, timestamp: Seq<char>) -> Seq<char> {
    "# Relatório de Auditoria (Fenrir) - Alvo: `"@ + target + "`\n\n*Gerado em: "@ + timestamp
        + "*\n\n## 1. Scan de Portas (Nmap)\n\n"@
}

pub open spec fn nmap_section_of(found: bool, path: Seq<char>) -> Seq<char> {
    if found {
        "* ✅ **Sucesso**: Arquivo de scan Nmap encontrado em `"@ + path
            + "`.\n* **(A fazer)**: Parsear o XML e listar portas/serviços abertos aqui.\n"@
    } else {
        "* ❌ **Erro**: Nenhum arquivo de scan Nmap encontrado em `"@ + path + "`.\n"@
    }
}

pub open spec fn gobuster_section_of(log: GobusterLog, path: Seq<char>) -> Seq<char> {
    "\n## 2. Scan de Diretórios (Gobuster)\n\n"@ + match log {
        GobusterLog::Empty => "* ⚠️ **Aviso**: Arquivo de scan Gobuster encontrado (`"@ + path
            + "`), mas está vazio. (Provavelmente não achou nada).\n"@,
        GobusterLog::Found => "* ✅ **Sucesso**: Arquivo de scan Gobuster encontrado em `"@ + path
            + "`.\n* **(A fazer)**: Listar os diretórios e arquivos (HTTP 200, 301, 403) encontrados.\n"@,
        GobusterLog::Missing => "* ❌ **Erro**: Nenhum arquivo de scan Gobuster encontrado em `"@
            + path + "`.\n"@,
    }
}

pub open spec fn sqlmap_section_of(found: bool, path: Seq<char>) -> Seq<char> {
    "\n## 3. Scan de Injeção (Sqlmap)\n\n"@ + if found {
        "* ✅ **Sucesso**: Pasta de output do Sqlmap encontrada em `"@ + path
            + "`.\n* **(A fazer)**: Listar bancos de dados e tabelas vulneráveis aqui.\n"@
    } else {
        "* **Erro**: Nenhuma pasta de output do Sqlmap encontrada em `"@ + path + "`.\n"@
    }
}

/// The audit report on a target, from what was found of each tool's output.
pub open spec fn report_of(
    target: Seq<char>,
    timestamp: Seq<char>,
    nmap_found: bool,
    gobuster: GobusterLog,
    sqlmap_found: bool,
) -> Seq<char> {
    let name = safe_name(target);
    report_header_of(target, timestamp) + nmap_section_of(
        nmap_found,
        log_dir_of(name) + "/nmap_scan.xml"@,
    ) + gobuster_section_of(gobuster, gobuster_log_of(target)) + sqlmap_section_of(
        sqlmap_found,
        sqlmap_dir_of(target),
    )
}

fn nmap_section(found: bool, path: &str) -> (r: String)
    ensures
        r@ == nmap_section_of(found, path@),
{
    if found {
        let mut t = owned("* ✅ **Sucesso**: Arquivo de scan Nmap encontrado em `");
        t.append(path);
        t.append("`.\n* **(A fazer)**: Parsear o XML e listar portas/serviços abertos aqui.\n");
        t
    } else {
        let mut t = owned("* ❌ **Erro**: Nenhum arquivo de scan Nmap encontrado em `");
        t.append(path);
        t.append("`.\n");
        t
    }
}

fn gobuster_section(log: GobusterLog, path: &str) -> (r: String)
    ensures
        r@ == gobuster_section_of(log, path@),
{
    let mut t = owned("\n## 2. Scan de Diretórios (Gobuster)\n\n");
    let ghost head = t@;
    match log {
        GobusterLog::Empty => {
            t.append("* ⚠️ **Aviso**: Arquivo de scan Gobuster encontrado (`");
            t.append(path);
            t.append("`), mas está vazio. (Provavelmente não achou nada).\n");
        },
        GobusterLog::Found => {
            t.append("* ✅ **Sucesso**: Arquivo de scan Gobuster encontrado em `");
            t.append(path);
            t.append(
                "`.\n* **(A fazer)**: Listar os diretórios e arquivos (HTTP 200, 301, 403) encontrados.\n",
            );
        },
        GobusterLog::Missing => {
            t.append("* ❌ **Erro**: Nenhum arquivo de scan Gobuster encontrado em `");
            t.append(path);
            t.append("`.\n");
        },
    }
    assert(t@ =~= gobuster_section_of(log, path@));
    t
}

fn sqlmap_section(found: bool, path: &str) -> (r: String)
    ensures
        r@ == sqlmap_section_of(found, path@),
{
    let mut t = owned("\n## 3. Scan de Injeção (Sqlmap)\n\n");
    if found {
        t.append("* ✅ **Sucesso**: Pasta de output do Sqlmap encontrada em `");
        t.append(path);
        t.append("`.\n* **(A fazer)**: Listar bancos de dados e tabelas vulneráveis aqui.\n");
    } else {
        t.append("* **Erro**: Nenhuma pasta de output do Sqlmap encontrada em `");
        t.append(path);
        t.append("`.\n");
    }
    assert(t@ =~= sqlmap_section_of(found, path@));
    t
}

/// Writes the audit report on a target in Markdown.
pub fn report_markdown(
    target: &str,
    timestamp: &str,
    nmap_found: bool,
    gobuster: GobusterLog,
    sqlmap_found: bool,
) -> (r: String)
    ensures
        r@ == report_of(target@, timestamp@, nmap_found, gobuster, sqlmap_found),
{
    let name = safe_target_name(target);
    let mut nmap_path = log_dir(name.as_str());
    nmap_path.append("/nmap_scan.xml");
    let mut t = owned("# Relatório de Auditoria (Fenrir) - Alvo: `");
    t.append(target);
    t.append("`\n\n*Gerado em: ");
    t.append(timestamp);
    t.append("*\n\n## 1. Scan de Portas (Nmap)\n\n");
    let ghost header = t@;
    assert(header =~= report_header_of(target@, timestamp@));
    let a = nmap_section(nmap_found, nmap_path.as_str());
    t.append(a.as_str());
    let g = gobuster_log_path(target);
    let b = gobuster_section(gobuster, g.as_str());
    t.append(b.as_str());
    let d = sqlmap_output_dir(target);
    let c = sqlmap_section(sqlmap_found, d.as_str());
    t.append(c.as_str());
    t
}

} // verus!
