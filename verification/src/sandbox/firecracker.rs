//! Firecracker microVM configuration and the requests of its HTTP API on a
//! Unix socket: what to send, in which order, and how to read the answer.
use vstd::prelude::*;
use crate::error::{ErrorCode, WcError};
use vstd::string::StrSliceExecFns;
use crate::external::{path_display, path_text_of, push_char, whitespace_of};
use crate::text::is_whitespace;
use crate::network::rest_gateway::find_char;
use crate::sandbox::egress::EgressPolicy;
use crate::text::{decimal, join3, spec_decimal};

verus! {

/// Firecracker sandbox settings.
#[derive(Debug)]
pub struct FirecrackerConfig {
    /// Virtual CPUs.
    pub vcpu_count: u32,
    /// Memory, MiB.
    pub mem_size_mib: u32,
    /// Scratch disk, bytes.
    pub scratch_bytes: u64,
    /// The firecracker binary.
    pub firecracker_bin: std::path::PathBuf,
    /// Guest kernel image.
    pub kernel_image: std::path::PathBuf,
    /// Egress policy.
    pub egress_policy: EgressPolicy,
}

impl Default for FirecrackerConfig {
    /// One vCPU, 512 MiB, 1 GiB scratch, standard paths, no egress.
    fn default() -> (r: FirecrackerConfig)
        ensures
            r.vcpu_count == 1,
            r.mem_size_mib == 512,
            r.scratch_bytes == 1024 * 1024 * 1024,
            path_text_of(r.firecracker_bin) == "/usr/local/bin/firecracker"@,
            path_text_of(r.kernel_image) == "/var/lib/worldcompute/vmlinux"@,
            !r.egress_policy.egress_allowed,
            r.egress_policy.approved_endpoints@.len() == 0,
    {
        FirecrackerConfig {
            vcpu_count: 1,
            mem_size_mib: 512,
            scratch_bytes: 1024 * 1024 * 1024,
            firecracker_bin: crate::external::path_from("/usr/local/bin/firecracker"),
            kernel_image: crate::external::path_from("/var/lib/worldcompute/vmlinux"),
            egress_policy: EgressPolicy::deny_all(),
        }
    }
}

/// A validated microVM configuration.
#[derive(Debug)]
pub struct FirecrackerVmConfig {
    /// Virtual CPUs (at least 1).
    pub vcpu_count: u32,
    /// Memory, MiB (at least 128).
    pub mem_size_mib: u32,
    /// Guest kernel image.
    pub kernel_image_path: std::path::PathBuf,
    /// Kernel command line.
    pub boot_args: String,
    /// Root filesystem image.
    pub rootfs_path: std::path::PathBuf,
    /// Host tap device.
    pub host_dev_name: String,
}

/// The fixed kernel command line.
pub open spec fn boot_args_text() -> Seq<char> {
    "console=ttyS0 reboot=k panic=1 pci=off"@
}

impl FirecrackerVmConfig {
    /// Validate and build a VM configuration: at least one vCPU and at
    /// least 128 MiB.
    pub fn new(
        vcpu_count: u32,
        mem_size_mib: u32,
        kernel_image_path: std::path::PathBuf,
        rootfs_path: std::path::PathBuf,
    ) -> (r: Result<FirecrackerVmConfig, WcError>)
        ensures
            vcpu_count < 1 ==> (r matches Err(e) && e.kind == ErrorCode::InvalidManifest && e.message@
                == "vcpu_count must be >= 1"@),
            vcpu_count >= 1 && mem_size_mib < 128 ==> (r matches Err(e) && e.kind == ErrorCode::InvalidManifest
                && e.message@ == "mem_size_mib must be >= 128"@),
            vcpu_count >= 1 && mem_size_mib >= 128 ==> (r matches Ok(c) && {
                &&& c.vcpu_count == vcpu_count
                &&& c.mem_size_mib == mem_size_mib
                &&& c.kernel_image_path == kernel_image_path
                &&& c.rootfs_path == rootfs_path
                &&& c.boot_args@ == boot_args_text()
                &&& c.host_dev_name@ == "tap0"@
            }),
    {
        if vcpu_count < 1 {
            return Err(WcError::with_text(ErrorCode::InvalidManifest, "vcpu_count must be >= 1"));
        }
        if mem_size_mib < 128 {
            return Err(WcError::with_text(ErrorCode::InvalidManifest, "mem_size_mib must be >= 128"));
        }
        Ok(FirecrackerVmConfig {
            vcpu_count,
            mem_size_mib,
            kernel_image_path,
            boot_args: String::from_str("console=ttyS0 reboot=k panic=1 pci=off"),
            rootfs_path,
            host_dev_name: String::from_str("tap0"),
        })
    }
}

} // verus!

verus! {

/// The HTTP request that puts `body` at `endpoint` of the Firecracker API;
/// the length is the body's UTF-8 byte count.
pub open spec fn api_request_text(endpoint: Seq<char>, body: Seq<char>) -> Seq<char> {
    "PUT "@ + endpoint + " HTTP/1.1\r\nHost: localhost\r\nContent-Type: application/json\r\nContent-Length: "@
        + spec_decimal(vstd::utf8::encode_utf8(body).len()) + "\r\nAccept: application/json\r\n\r\n"@ + body
}

/// Build the request text of an API PUT.
pub fn api_put_request(endpoint: &str, body: &str) -> (r: String)
    ensures
        r@ == api_request_text(endpoint@, body@),
{
    let len = decimal(body.as_bytes().len() as u64);
    let mut req = join3("PUT ", endpoint, " HTTP/1.1\r\nHost: localhost\r\nContent-Type: application/json\r\nContent-Length: ");
    req.append(len.as_str());
    req.append("\r\nAccept: application/json\r\n\r\n");
    req.append(body);
    req
}

/// The first line of a text, without its line ending (`\n` or `\r\n`);
/// none for the empty text.
pub open spec fn first_line(s: Seq<char>) -> Option<Seq<char>> {
    if s.len() == 0 {
        None
    } else {
        match find_char(s, '\n', 0) {
            None => Some(s),
            Some(i) => {
                let l = s.take(i);
                Some(if l.len() > 0 && l.last() == '\r' { l.drop_last() } else { l })
            },
        }
    }
}

/// The words of a text: maximal runs of non-white-space characters.
pub open spec fn words(s: Seq<char>) -> Seq<Seq<char>>
    decreases s.len(),
{
    if s.len() == 0 {
        Seq::empty()
    } else {
        let w = words(s.drop_last());
        let c = s.last();
        if whitespace_of(c) {
            w
        } else if s.len() >= 2 && !whitespace_of(s[s.len() - 2]) {
            w.update(w.len() - 1, w.last().push(c))
        } else {
            w.push(seq![c])
        }
    }
}

/// Decimal value of a digit string.
pub open spec fn digits_value(d: Seq<char>) -> int
    decreases d.len(),
{
    if d.len() == 0 {
        0
    } else {
        digits_value(d.drop_last()) * 10 + (d.last() as int - 48)
    }
}

/// The text after an optional leading `+`.
pub open spec fn unsigned_digits(t: Seq<char>) -> Seq<char> {
    if t.len() > 0 && t[0] == '+' { t.drop_first() } else { t }
}

/// Every character is an ASCII digit.
pub open spec fn all_digits(d: Seq<char>) -> bool {
    forall|i: int| 0 <= i < d.len() ==> '0' <= #[trigger] d[i] && d[i] <= '9'
}

/// `str::parse::<u16>`: an optional `+`, then one or more ASCII digits,
/// with a value that fits.
pub open spec fn parse_u16(t: Seq<char>) -> Option<u16> {
    let d = unsigned_digits(t);
    if d.len() == 0 || !all_digits(d) {
        None
    } else if digits_value(d) > 65535 {
        None
    } else {
        Some(digits_value(d) as u16)
    }
}

/// The status code of an HTTP response: the second word of its first line
/// read as a number, or 0.
pub open spec fn response_status(response: Seq<char>) -> u16 {
    match first_line(response) {
        None => 0,
        Some(line) => {
            let w = words(line);
            if w.len() < 2 {
                0
            } else {
                match parse_u16(w[1]) {
                    Some(v) => v,
                    None => 0,
                }
            }
        },
    }
}

fn first_line_of(s: &str) -> (r: Option<String>)
    ensures
        r matches Some(l) ==> first_line(s@) == Some(l@),
        r is None ==> first_line(s@) is None,
{
    let n = s.unicode_len();
    if n == 0 {
        return None;
    }
    let mut i: usize = 0;
    while i < n
        invariant
            n == s@.len(),
            i <= n,
            find_char(s@, '\n', 0) == find_char(s@, '\n', i as int),
        decreases n - i,
    {
        if s.get_char(i) == '\n' {
            let l = s.substring_char(0, i);
            assert(l@ =~= s@.take(i as int));
            if i > 0 && s.get_char(i - 1) == '\r' {
                let t = s.substring_char(0, i - 1);
                assert(t@ =~= s@.take(i as int).drop_last());
                return Some(String::from_str(t));
            }
            return Some(String::from_str(l));
        }
        i = i + 1;
    }
    Some(String::from_str(s))
}

fn split_words(s: &str) -> (r: Vec<String>)
    ensures
        r@.map_values(|w: String| w@) == words(s@),
{
    let n = s.unicode_len();
    let mut done: Vec<String> = Vec::new();
    let mut cur = String::new();
    let mut in_word = false;
    let mut i: usize = 0;
    assert(s@.take(0) =~= Seq::<char>::empty());
    assert(done@.map_values(|w: String| w@) =~= Seq::<Seq<char>>::empty());
    while i < n
        invariant
            n == s@.len(),
            i <= n,
            in_word == (i > 0 && !whitespace_of(s@[i - 1])),
            words(s@.take(i as int)) == if in_word {
                done@.map_values(|w: String| w@).push(cur@)
            } else {
                done@.map_values(|w: String| w@)
            },
        decreases n - i,
    {
        let c = s.get_char(i);
        let ghost prev = s@.take(i as int);
        assert(s@.take(i as int + 1).drop_last() =~= prev);
        assert(s@.take(i as int + 1).last() == c);
        if i > 0 {
            assert(s@.take(i as int + 1)[i - 1] == s@[i - 1]);
        }
        if is_whitespace(c) {
            if in_word {
                let ghost before = done@;
                let w = cur;
                done.push(w);
                cur = String::new();
                assert(done@.map_values(|w: String| w@) =~= before.map_values(|w: String| w@).push(w@));
            }
            in_word = false;
        } else {
            if in_word {
                let ghost before = cur@;
                push_char(&mut cur, c);
                assert(done@.map_values(|w: String| w@).push(cur@) =~= done@.map_values(|w: String| w@).push(
                    before,
                ).update(done@.len() as int, before.push(c)));
            } else {
                cur = String::new();
                push_char(&mut cur, c);
                assert(cur@ =~= seq![c]);
            }
            in_word = true;
        }
        i = i + 1;
    }
    assert(s@.take(n as int) =~= s@);
    if in_word {
        let ghost before = done@;
        let w = cur;
        done.push(w);
        assert(done@.map_values(|w: String| w@) =~= before.map_values(|w: String| w@).push(w@));
    }
    done
}

fn parse_u16_text(t: &str) -> (r: Option<u16>)
    ensures
        r == parse_u16(t@),
{
    let n = t.unicode_len();
    let start: usize = if n > 0 && t.get_char(0) == '+' { 1 } else { 0 };
    let ghost d = unsigned_digits(t@);
    assert(d =~= t@.subrange(start as int, n as int));
    if start >= n {
        return None;
    }
    let mut value: u32 = 0;
    let mut i: usize = start;
    while i < n
        invariant
            n == t@.len(),
            start <= i <= n,
            d == unsigned_digits(t@),
            d =~= t@.subrange(start as int, n as int),
            d.len() > 0,
            forall|j: int| 0 <= j < i - start ==> '0' <= #[trigger] d[j] && d[j] <= '9',
            value == digits_value(d.take(i - start)),
            value <= 65535,
        decreases n - i,
    {
        let c = t.get_char(i);
        assert(d[i - start] == c);
        if !('0' <= c && c <= '9') {
            assert(!('0' <= d[i - start] && d[i - start] <= '9'));
            assert(!all_digits(d));
            return None;
        }
        assert(d.take(i - start + 1).drop_last() =~= d.take(i - start));
        let next = value * 10 + (c as u32 - 48);
        if next > 65535 {
            assert(digits_value(d.take(i - start + 1)) == next);
            proof { lemma_digits_grow(d, i - start + 1); }
            return None;
        }
        value = next;
        i = i + 1;
    }
    assert(d.take(n - start) =~= d);
    Some(value as u16)
}

proof fn lemma_digits_grow(d: Seq<char>, k: int)
    requires
        0 < k <= d.len(),
        forall|j: int| 0 <= j < d.len() ==> '0' <= #[trigger] d[j] && d[j] <= '9' || j >= k,
        digits_value(d.take(k)) > 65535,
    ensures
        !all_digits(d) || digits_value(d) > 65535,
    decreases d.len() - k,
{
    if k < d.len() {
        if '0' <= d[k] && d[k] <= '9' {
            assert(d.take(k + 1).drop_last() =~= d.take(k));
            lemma_digits_grow(d, k + 1);
        }
    } else {
        assert(d.take(k) =~= d);
    }
}

/// Read the status code of an API response.
pub fn api_response_status(response: &str) -> (r: u16)
    ensures
        r == response_status(response@),
{
    match first_line_of(response) {
        None => 0,
        Some(line) => {
            let w = split_words(line.as_str());
            if w.len() < 2 {
                0
            } else {
                assert(w@.map_values(|x: String| x@)[1] == w@[1]@);
                match parse_u16_text(w[1].as_str()) {
                    Some(v) => v,
                    None => 0,
                }
            }
        },
    }
}

/// The outcome of an API PUT from the response text: a 2xx status is
/// success; anything else an internal error naming endpoint, status and
/// response.
pub open spec fn spec_put_outcome(endpoint: Seq<char>, response: Seq<char>) -> Option<Seq<char>> {
    let code = response_status(response);
    if 200 <= code < 300 {
        None
    } else {
        Some("Firecracker API PUT "@ + endpoint + " failed with status "@ + spec_decimal(code as nat) + ": "@ + response)
    }
}

/// Judge an API PUT from the response text read back.
pub fn api_put_outcome(endpoint: &str, response: &str) -> (r: Result<(), WcError>)
    ensures
        r is Ok <==> spec_put_outcome(endpoint@, response@) is None,
        r matches Err(e) ==> e.kind == ErrorCode::Internal && spec_put_outcome(endpoint@, response@) == Some(e.message@),
{
    let code = api_response_status(response);
    if 200 <= code && code < 300 {
        return Ok(());
    }
    let c = decimal(code as u64);
    let mut m = join3("Firecracker API PUT ", endpoint, " failed with status ");
    m.append(c.as_str());
    m.append(": ");
    m.append(response);
    Err(WcError::new(ErrorCode::Internal, m))
}

} // verus!

verus! {

/// The API calls that configure and boot a microVM, in order: machine
/// configuration, boot source, root drive, network interface, start.
pub open spec fn vm_requests(
    vcpus: u32,
    mem: u32,
    kernel: Seq<char>,
    boot_args: Seq<char>,
    rootfs: Seq<char>,
    dev: Seq<char>,
) -> Seq<(Seq<char>, Seq<char>)> {
    seq![
        ("/machine-config"@, "{\"vcpu_count\":"@ + spec_decimal(vcpus as nat) + ",\"mem_size_mib\":"@ + spec_decimal(mem as nat) + "}"@),
        ("/boot-source"@, "{\"kernel_image_path\":\""@ + kernel + "\",\"boot_args\":\""@ + boot_args + "\"}"@),
        ("/drives/rootfs"@, "{\"drive_id\":\"rootfs\",\"path_on_host\":\""@ + rootfs + "\",\"is_root_device\":true,\"is_read_only\":true}"@),
        ("/network-interfaces/eth0"@, "{\"iface_id\":\"eth0\",\"host_dev_name\":\""@ + dev + "\"}"@),
        ("/actions"@, "{\"action_type\":\"InstanceStart\"}"@),
    ]
}

/// The endpoint and body of each API call that configures and starts a VM;
/// the caller sends them in order and stops at the first failure.
pub fn vm_configuration_requests(vm: &FirecrackerVmConfig) -> (r: Vec<(String, String)>)
    ensures
        r@.map_values(|p: (String, String)| (p.0@, p.1@)) == vm_requests(
            vm.vcpu_count,
            vm.mem_size_mib,
            path_text_of(vm.kernel_image_path),
            vm.boot_args@,
            path_text_of(vm.rootfs_path),
            vm.host_dev_name@,
        ),
{
    let mut out: Vec<(String, String)> = Vec::new();
    let v = decimal(vm.vcpu_count as u64);
    let m = decimal(vm.mem_size_mib as u64);
    let mut machine = join3("{\"vcpu_count\":", v.as_str(), ",\"mem_size_mib\":");
    machine.append(m.as_str());
    machine.append("}");
    out.push((String::from_str("/machine-config"), machine));
    let kernel = path_display(&vm.kernel_image_path);
    let mut boot = join3("{\"kernel_image_path\":\"", kernel.as_str(), "\",\"boot_args\":\"");
    boot.append(vm.boot_args.as_str());
    boot.append("\"}");
    out.push((String::from_str("/boot-source"), boot));
    let rootfs = path_display(&vm.rootfs_path);
    let drive = join3(
        "{\"drive_id\":\"rootfs\",\"path_on_host\":\"",
        rootfs.as_str(),
        "\",\"is_root_device\":true,\"is_read_only\":true}",
    );
    out.push((String::from_str("/drives/rootfs"), drive));
    let net = join3("{\"iface_id\":\"eth0\",\"host_dev_name\":\"", vm.host_dev_name.as_str(), "\"}");
    out.push((String::from_str("/network-interfaces/eth0"), net));
    out.push((String::from_str("/actions"), String::from_str("{\"action_type\":\"InstanceStart\"}")));
    assert(out@.map_values(|p: (String, String)| (p.0@, p.1@)) =~= vm_requests(
        vm.vcpu_count,
        vm.mem_size_mib,
        path_text_of(vm.kernel_image_path),
        vm.boot_args@,
        path_text_of(vm.rootfs_path),
        vm.host_dev_name@,
    ));
    out
}

/// The body of a full snapshot request.
pub fn snapshot_request_body(snapshot_path: &str, mem_path: &str) -> (r: String)
    ensures
        r@ == "{\"snapshot_type\":\"Full\",\"snapshot_path\":\""@ + snapshot_path@ + "\",\"mem_file_path\":\""@
            + mem_path@ + "\"}"@,
{
    let mut b = join3("{\"snapshot_type\":\"Full\",\"snapshot_path\":\"", snapshot_path, "\",\"mem_file_path\":\"");
    b.append(mem_path);
    b.append("\"}");
    b
}

} // verus!
