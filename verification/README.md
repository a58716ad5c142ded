# libnetctl

Network control library with verified decision logic: validation of
interface names, addresses and configuration values; generation of hostapd
and DHCP server configuration; the state kept behind the CR and
NetworkManager D-Bus interfaces; link and network event tracking; the
connection file model and its NetworkManager keyfile converter; and the
command rules of the `nccli` tool.

## Layout

- `src/` — the library, written in Verus. Every public function states
  what it returns in its contract, and the laws that relate functions
  (event replay, lease expiry, registry updates, sort order) are proved
  as proof functions next to them.
- `app/` — the programs around the library: `nccli` (also run as
  `netctl`, `netctld`, `nm-converter` and `crrouter-web`), with argument
  parsing, file and process I/O, the D-Bus services and the HTTP API.
- `tests/` — tests of the library on concrete values.

## Building

The library is checked with Verus; the programs and tests build with
Cargo against the library.

## What the programs do not do

Some parts of the network stack that the commands drive are not part of
this code base, so the commands that need them answer "not supported":

- **WiFi controller** (scanning, device information, regulatory domain,
  TX power): `nccli device wifi list` without `--use-dbus`, `netctl wifi
  scan|info|get-reg|set-reg|get-txpower|set-txpower`, and the HTTP WiFi
  scan.  Listing WiFi interfaces works.
- **VPN manager and its backends** (WireGuard, OpenVPN, IPsec): every VPN
  command.  The library's VPN lookups (`find_vpn_by_name`,
  `display_setting_value`, `vpn_not_found`) are ready for it.
- **Routing controller**: adding a default gateway.
- **WPA supplicant control**: joining a WiFi network from a connection
  file.
- **Privilege token store**: the daemon does not serve the Privilege
  interface; the library holds its checks and replies
  (`cr_dbus::privilege`), which take what the store reports.

Also not done:

- Network events are found by polling the interfaces every two seconds,
  not through a netlink socket.  The library's route-message handling
  (`network_monitor::process_route_message`) is what a netlink reader
  would feed.
- The connection manager's activation and deactivation plans
  (`connection_manager`) are not run by a program, since they drive the
  WiFi, VPN and DHCP client controls above.  The programs read and write
  connection files directly.
- `netctl` and `nccli` keep no configuration file of their own: the
  directories are the library's defaults.
