//! What the service tells the service registry about itself, and where.

use vstd::prelude::*;
use vstd::string::*;

verus! {

/// The settings of one running instance.
#[derive(Debug)]
pub struct Settings {
    pub eureka_server: String,
    pub app_name: String,
    pub instance_id: String,
    pub server_host: String,
    pub server_port: u16,
    pub database_url: String,
}

/// The registration of an instance.
#[derive(Debug)]
pub struct EurekaInfo {
    pub instance: EurekaDetails,
}

/// What a registration says of the instance.
#[derive(Debug)]
pub struct EurekaDetails {
    pub instance_id: String,
    pub host_name: String,
    pub app: String,
    pub ip_addr: String,
    pub vip_address: String,
    pub status: String,
    pub port: EurekaPortDetails,
    pub data_center_info: DataCenterInfo,
}

/// The port of an instance and whether it is open.
#[derive(Debug)]
pub struct EurekaPortDetails {
    pub port: u16,
    pub enabled: String,
}

/// The data centre of an instance.
#[derive(Debug)]
pub struct DataCenterInfo {
    pub class: String,
    pub name: String,
}

/// The address under which an application registers.
pub open spec fn register_path(eureka_server: Seq<char>, app_name: Seq<char>) -> Seq<char> {
    eureka_server + "/apps/"@ + app_name
}

/// The address to which an instance sends its heartbeats.
pub open spec fn heartbeat_path(
    eureka_server: Seq<char>,
    app_name: Seq<char>,
    instance_id: Seq<char>,
) -> Seq<char> {
    register_path(eureka_server, app_name) + "/"@ + instance_id
}

impl EurekaInfo {
    /// The registration of the instance that runs with `settings`: up, on
    /// the local host, at the configured port, under the application's name.
    pub fn for_instance(settings: &Settings) -> (info: EurekaInfo)
        ensures
            info.instance.instance_id@ == settings.instance_id@,
            info.instance.host_name@ == "127.0.0.1"@,
            info.instance.app@ == settings.app_name@,
            info.instance.ip_addr@ == "127.0.0.1"@,
            info.instance.vip_address@ == settings.app_name@,
            info.instance.status@ == "UP"@,
            info.instance.port.port == settings.server_port,
            info.instance.port.enabled@ == "true"@,
            info.instance.data_center_info.class@
                == "com.netflix.appinfo.InstanceInfo$DefaultDataCenterInfo"@,
            info.instance.data_center_info.name@ == "MyOwn"@,
    {
        EurekaInfo {
            instance: EurekaDetails {
                instance_id: settings.instance_id.clone(),
                host_name: String::from_str("127.0.0.1"),
                app: settings.app_name.clone(),
                ip_addr: String::from_str("127.0.0.1"),
                vip_address: settings.app_name.clone(),
                status: String::from_str("UP"),
                port: EurekaPortDetails {
                    port: settings.server_port,
                    enabled: String::from_str("true"),
                },
                data_center_info: DataCenterInfo {
                    class: String::from_str(
                        "com.netflix.appinfo.InstanceInfo$DefaultDataCenterInfo",
                    ),
                    name: String::from_str("MyOwn"),
                },
            },
        }
    }
}

impl Settings {
    /// The address under which the instance registers.
    pub fn register_url(&self) -> (url: String)
        ensures
            url@ == register_path(self.eureka_server@, self.app_name@),
    {
        let mut url = self.eureka_server.clone();
        url.append("/apps/");
        url.append(self.app_name.as_str());
        url
    }

    /// The address to which the instance sends its heartbeats.
    pub fn heartbeat_url(&self) -> (url: String)
        ensures
            url@ == heartbeat_path(self.eureka_server@, self.app_name@, self.instance_id@),
    {
        let mut url = self.register_url();
        url.append("/");
        url.append(self.instance_id.as_str());
        url
    }
}

} // verus!
