//! The documents that are compiled into the library: the core schema, the
//! starter configuration, the playbooks and the templates that the playbooks
//! use.
use vstd::prelude::*;
use crate::text::same_text;

verus! {

/// The schemas of the commands that the library ships with.
pub const CORE_SCHEMA: &'static str = "{
  \"base:build\": {
    \"steps\": [\"onBuildMainServer\", \"onBuildNodeServers\", \"onRunPostBuild\", \"onValidateCluster\"]
  },
  \"base:destroy\": {
    \"steps\": [\"onDestroyNodes\", \"onDestroyControlPlane\"]
  }
}
";

/// A schema of two steps, for trying a runtime out.
pub const SAMPLE_SCHEMA: &'static str = "{
  \"test_cmd\": {
    \"steps\": [\"test_event\", \"test_event2\"]
  }
}
";

/// The configuration file that `init` writes.
pub const BASE_CONFIG_TEMPLATE: &'static str = "{
  \"nya.control_plane\": {
    \"control_plane\": {
      \"hosts\": {
        \"main\": { \"ansible_host\": \"192.0.2.10\", \"ansible_user\": \"root\" }
      }
    }
  },
  \"nya.control_plane.vars\": {
    \"cluster_domain\": \"cluster.example\",
    \"registry_host\": \"registry.cluster.example\"
  },
  \"nya.nodes\": {
    \"nodes\": {
      \"hosts\": {
        \"node1\": { \"ansible_host\": \"192.0.2.11\", \"ansible_user\": \"root\" }
      }
    }
  },
  \"nya.nodes.vars\": {
    \"control_plane_host\": \"192.0.2.10\"
  }
}
";

/// Template of the DNS zone file.
pub const BIND9_DB: &'static str = "$TTL 604800
@ IN SOA ns.{{ cluster_domain }}. admin.{{ cluster_domain }}. ( 1 604800 86400 2419200 604800 )
@ IN NS ns.{{ cluster_domain }}.
ns IN A {{ ansible_host }}
registry IN A {{ ansible_host }}
";

/// Template of the local zone declaration.
pub const NAMED_CONF_LOCAL: &'static str = "zone \"{{ cluster_domain }}\" {
    type master;
    file \"/etc/bind/db.{{ cluster_domain }}\";
};
";

/// Template of the name server's options.
pub const NAMED_CONF_OPTIONS: &'static str = "options {
    directory \"/var/cache/bind\";
    recursion yes;
    allow-query { any; };
    forwarders { 1.1.1.1; 9.9.9.9; };
    dnssec-validation auto;
};
";

/// Template of the container registry mirrors.
pub const REGISTRIES: &'static str = "mirrors:
  \"{{ registry_host }}\":
    endpoint:
      - \"http://{{ registry_host }}:5000\"
";

/// Playbook that installs the control plane and announces the join token.
pub const BUILD_CONTROL_PLANE: &'static str = "- name: Build control plane
  hosts: control_plane
  become: true
  tasks:
    - name: Install name server
      ansible.builtin.package:
        name: bind9
        state: present
    - name: Write name server options
      ansible.builtin.template:
        src: named.conf.options.j2
        dest: /etc/bind/named.conf.options
    - name: Write local zones
      ansible.builtin.template:
        src: named.conf.local.j2
        dest: /etc/bind/named.conf.local
    - name: Write zone file
      ansible.builtin.template:
        src: bind9.db.j2
        dest: \"/etc/bind/db.{{ cluster_domain }}\"
    - name: Write registry mirrors
      ansible.builtin.template:
        src: registries.yaml.j2
        dest: /etc/rancher/k3s/registries.yaml
    - name: Install k3s server
      ansible.builtin.shell: curl -sfL https://get.k3s.io | sh -s - server
      args:
        creates: /usr/local/bin/k3s
    - name: Read join token
      ansible.builtin.command: cat /var/lib/rancher/k3s/server/node-token
      register: join_token
      changed_when: false
    - name: Announce join token
      ansible.builtin.debug:
        msg: \"K3S_TOKEN={{ join_token.stdout }}\"
";

/// Playbook that joins the worker nodes to the control plane.
pub const BUILD_NODES: &'static str = "- name: Build nodes
  hosts: nodes
  become: true
  tasks:
    - name: Write registry mirrors
      ansible.builtin.template:
        src: registries.yaml.j2
        dest: /etc/rancher/k3s/registries.yaml
    - name: Install k3s agent
      ansible.builtin.shell: curl -sfL https://get.k3s.io | sh -s - agent
      environment:
        K3S_URL: \"https://{{ control_plane_host }}:6443\"
        K3S_TOKEN: \"{{ k3s_node_token }}\"
      args:
        creates: /usr/local/bin/k3s
";

/// Playbook that finishes the control plane once the nodes have joined.
pub const POST_BUILD: &'static str = "- name: Post build
  hosts: control_plane
  become: true
  tasks:
    - name: Restart name server
      ansible.builtin.service:
        name: named
        state: restarted
    - name: Wait for the API server
      ansible.builtin.wait_for:
        port: 6443
        timeout: 120
";

/// Playbook that checks that every node is ready.
pub const VALIDATE_CLUSTER: &'static str = "- name: Validate cluster
  hosts: control_plane
  become: true
  tasks:
    - name: List nodes
      ansible.builtin.command: k3s kubectl get nodes
      register: cluster_nodes
      changed_when: false
    - name: Fail on a node that is not ready
      ansible.builtin.fail:
        msg: A node is not ready
      when: \"'NotReady' in cluster_nodes.stdout\"
";

/// Playbook that removes the control plane.
pub const DESTROY_CONTROL_PLANE: &'static str = "- name: Destroy control plane
  hosts: control_plane
  become: true
  tasks:
    - name: Uninstall k3s server
      ansible.builtin.command: /usr/local/bin/k3s-uninstall.sh
      args:
        removes: /usr/local/bin/k3s-uninstall.sh
";

/// Playbook that removes the worker nodes.
pub const DESTROY_NODES: &'static str = "- name: Destroy nodes
  hosts: nodes
  become: true
  tasks:
    - name: Uninstall k3s agent
      ansible.builtin.command: /usr/local/bin/k3s-agent-uninstall.sh
      args:
        removes: /usr/local/bin/k3s-agent-uninstall.sh
";

/// The playbook that goes by `name`, as a specification.
pub open spec fn playbook_of(name: Seq<char>) -> Option<&'static str> {
    if name == "build_control_plane"@ {
        Some(BUILD_CONTROL_PLANE)
    } else if name == "build_nodes"@ {
        Some(BUILD_NODES)
    } else if name == "post_build"@ {
        Some(POST_BUILD)
    } else if name == "validate_cluster"@ {
        Some(VALIDATE_CLUSTER)
    } else if name == "destroy_control_plane"@ {
        Some(DESTROY_CONTROL_PLANE)
    } else if name == "destroy_nodes"@ {
        Some(DESTROY_NODES)
    } else {
        None
    }
}

/// The content of the playbook that goes by `name`; `None` for a name that
/// is not a playbook's.
pub fn get_playbook(name: &str) -> (r: Option<&'static str>)
    ensures
        r == playbook_of(name@),
{
    if same_text(name, "build_control_plane") {
        Some(BUILD_CONTROL_PLANE)
    } else if same_text(name, "build_nodes") {
        Some(BUILD_NODES)
    } else if same_text(name, "post_build") {
        Some(POST_BUILD)
    } else if same_text(name, "validate_cluster") {
        Some(VALIDATE_CLUSTER)
    } else if same_text(name, "destroy_control_plane") {
        Some(DESTROY_CONTROL_PLANE)
    } else if same_text(name, "destroy_nodes") {
        Some(DESTROY_NODES)
    } else {
        None
    }
}

/// The template that goes by `name`, as a specification: its file name and
/// its content.
pub open spec fn base_template_of(name: Seq<char>) -> Option<(&'static str, &'static str)> {
    if name == "bind9_db"@ {
        Some(("bind9.db.j2", BIND9_DB))
    } else if name == "conf_local"@ {
        Some(("named.conf.local.j2", NAMED_CONF_LOCAL))
    } else if name == "conf_options"@ {
        Some(("named.conf.options.j2", NAMED_CONF_OPTIONS))
    } else if name == "registries"@ {
        Some(("registries.yaml.j2", REGISTRIES))
    } else {
        None
    }
}

/// The file name and the content of the template that goes by `name`; `None`
/// for a name that is not a template's.
pub fn get_base_template(name: &str) -> (r: Option<(&'static str, &'static str)>)
    ensures
        r == base_template_of(name@),
{
    if same_text(name, "bind9_db") {
        Some(("bind9.db.j2", BIND9_DB))
    } else if same_text(name, "conf_local") {
        Some(("named.conf.local.j2", NAMED_CONF_LOCAL))
    } else if same_text(name, "conf_options") {
        Some(("named.conf.options.j2", NAMED_CONF_OPTIONS))
    } else if same_text(name, "registries") {
        Some(("registries.yaml.j2", REGISTRIES))
    } else {
        None
    }
}

} // verus!
