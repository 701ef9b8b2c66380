use vstd::prelude::*;

verus! {

/// The fixed port of the in-container address.
pub const DOCKER_PORT: u16 = 80;

/// A network address: a host name and a port.
#[derive(Debug)]
pub struct Addr {
    pub host: String,
    pub port: u16,
}

/// The two address constants the resolver embeds into a service's build: the
/// address the configuration declares for the service, and the in-container
/// address, which is always the package's own name on the fixed port.
#[derive(Debug)]
pub struct BuildAddrs {
    pub local: Addr,
    pub docker: Addr,
}

/// Builds the two embedded address constants from the service's configured
/// host and port and from its package name.
pub fn include_addr(host: String, port: u16, package_name: String) -> (r: BuildAddrs)
    ensures
        r.local.host@ == host@,
        r.local.port == port,
        r.docker.host@ == package_name@,
        r.docker.port == DOCKER_PORT,
{
    BuildAddrs {
        local: Addr { host, port },
        docker: Addr { host: package_name, port: DOCKER_PORT },
    }
}

/// Whether a directory entry's name is the configuration file the address
/// resolver reads.
pub fn is_conf_file_name(name: &str) -> (r: bool)
    ensures
        r == (name@ == "nutt.conf.toml"@),
{
    let n: String = name.to_owned();
    n == "nutt.conf.toml".to_owned()
}

} // verus!
