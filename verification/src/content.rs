//! The two metadata documents this crate synthesizes for the destination
//! launcher: the fixed-key `key=value` instance text, and the pack
//! descriptor document with one game component and one loader component.
//! Both are produced character-exactly as their spec functions state.
use vstd::prelude::*;
use vstd::string::StrSliceExecFns;
use vstd::string::StringExecFns;

use crate::instance::{FTBInstance, InstanceModel};
use crate::loader::{LoaderModel, ModLoader};
use crate::strutil::push_char;

verus! {

/// The lower hex digit for a value below sixteen.
pub open spec fn hex_digit(n: int) -> char {
    if n == 0 {
        '0'
    } else if n == 1 {
        '1'
    } else if n == 2 {
        '2'
    } else if n == 3 {
        '3'
    } else if n == 4 {
        '4'
    } else if n == 5 {
        '5'
    } else if n == 6 {
        '6'
    } else if n == 7 {
        '7'
    } else if n == 8 {
        '8'
    } else if n == 9 {
        '9'
    } else if n == 10 {
        'a'
    } else if n == 11 {
        'b'
    } else if n == 12 {
        'c'
    } else if n == 13 {
        'd'
    } else if n == 14 {
        'e'
    } else {
        'f'
    }
}

/// How one character is written inside a quoted string of the descriptor
/// document: quote, backslash and control characters are escaped, every
/// other character stands for itself.
pub open spec fn escape_char(c: char) -> Seq<char> {
    if c == '"' {
        seq!['\\', '"']
    } else if c == '\\' {
        seq!['\\', '\\']
    } else if c == '\n' {
        seq!['\\', 'n']
    } else if c == '\r' {
        seq!['\\', 'r']
    } else if c == '\t' {
        seq!['\\', 't']
    } else if (c as u32) < 32 {
        seq!['\\', 'u', '0', '0', hex_digit(c as u32 as int / 16), hex_digit(c as u32 as int % 16)]
    } else {
        seq![c]
    }
}

/// A string's characters, escaped for a quoted string of the descriptor
/// document.
pub open spec fn escaped(s: Seq<char>) -> Seq<char>
    decreases s.len(),
{
    if s.len() == 0 {
        s
    } else {
        escape_char(s.first()) + escaped(s.drop_first())
    }
}

/// Append the escaped form of `s` to `out`.
fn append_escaped(out: &mut String, s: &str)
    ensures
        final(out)@ == old(out)@ + escaped(s@),
{
    let n = s.unicode_len();
    let mut i: usize = 0;
    proof {
        assert(s@.skip(0) == s@);
    }
    while i < n
        invariant
            i <= n,
            n == s@.len(),
            old(out)@ + escaped(s@) == out@ + escaped(s@.skip(i as int)),
        decreases n - i,
    {
        let ghost pre = out@;
        let c = s.get_char(i);
        if c == '"' {
            out.append("\\\"");
            proof {
                reveal_strlit("\\\"");
                assert(out@ =~= pre + escape_char(c));
            }
        } else if c == '\\' {
            out.append("\\\\");
            proof {
                reveal_strlit("\\\\");
                assert(out@ =~= pre + escape_char(c));
            }
        } else if c == '\n' {
            out.append("\\n");
            proof {
                reveal_strlit("\\n");
                assert(out@ =~= pre + escape_char(c));
            }
        } else if c == '\r' {
            out.append("\\r");
            proof {
                reveal_strlit("\\r");
                assert(out@ =~= pre + escape_char(c));
            }
        } else if c == '\t' {
            out.append("\\t");
            proof {
                reveal_strlit("\\t");
                assert(out@ =~= pre + escape_char(c));
            }
        } else if (c as u32) < 32 {
            out.append("\\u00");
            push_char(out, hex_digit_exec((c as u32 / 16) as u8));
            push_char(out, hex_digit_exec((c as u32 % 16) as u8));
            proof {
                reveal_strlit("\\u00");
                assert(out@ =~= pre + escape_char(c));
            }
        } else {
            push_char(out, c);
            proof {
                assert(out@ =~= pre + escape_char(c));
            }
        }
        proof {
            assert(s@.skip(i as int).drop_first() == s@.skip(i + 1));
            assert(escaped(s@.skip(i as int)) == escape_char(s@[i as int]) + escaped(
                s@.skip(i + 1),
            ));
            assert(pre + escape_char(c) + escaped(s@.skip(i + 1)) =~= pre + (escape_char(c)
                + escaped(s@.skip(i + 1))));
        }
        i += 1;
    }
    proof {
        assert(escaped(s@.skip(n as int)) =~= Seq::<char>::empty());
        assert(out@ + escaped(s@.skip(n as int)) =~= out@);
    }
}

/// The lower hex digit for a value below sixteen.
fn hex_digit_exec(n: u8) -> (r: char)
    requires
        n < 16,
    ensures
        r == hex_digit(n as int),
{
    if n == 0 {
        '0'
    } else if n == 1 {
        '1'
    } else if n == 2 {
        '2'
    } else if n == 3 {
        '3'
    } else if n == 4 {
        '4'
    } else if n == 5 {
        '5'
    } else if n == 6 {
        '6'
    } else if n == 7 {
        '7'
    } else if n == 8 {
        '8'
    } else if n == 9 {
        '9'
    } else if n == 10 {
        'a'
    } else if n == 11 {
        'b'
    } else if n == 12 {
        'c'
    } else if n == 13 {
        'd'
    } else if n == 14 {
        'e'
    } else {
        'f'
    }
}

/// The fixed override-disabled head of the instance text.
pub open spec fn cfg_head() -> Seq<char> {
    "InstanceType=OneSix\nJoinServerOnLaunch=false\nOverrideCommands=false\nOverrideConsole=false\nOverrideGameTime=false\nOverrideJavaArgs=false\nOverrideJavaLocation=false\nOverrideMemory=false\nOverrideNativeWorkarounds=false\nOverrideWindow=false\n"@
}

/// The instance text written beside the alias: the fixed head, an icon
/// key naming the copied icon (empty when the instance has none), the
/// display name, and an empty notes line.
pub open spec fn spec_instance_cfg(name: Seq<char>, uuid: Seq<char>, has_icon: bool) -> Seq<char> {
    cfg_head() + (if has_icon {
        "iconKey="@ + uuid + "\n"@
    } else {
        "iconKey=\n"@
    }) + "name="@ + name + "\n"@ + "notes=\n"@
}

/// Generate the launcher's per-instance `key=value` text.
pub fn gen_mmc_instance_cfg(instance: &FTBInstance, has_icon: bool) -> (r: String)
    ensures
        r@ == spec_instance_cfg(instance.name@, instance.uuid@, has_icon),
{
    let mut out = String::new();
    out.append(
        "InstanceType=OneSix\nJoinServerOnLaunch=false\nOverrideCommands=false\nOverrideConsole=false\nOverrideGameTime=false\nOverrideJavaArgs=false\nOverrideJavaLocation=false\nOverrideMemory=false\nOverrideNativeWorkarounds=false\nOverrideWindow=false\n",
    );
    if has_icon {
        out.append("iconKey=");
        out.append(instance.uuid.as_str());
        out.append("\n");
    } else {
        out.append("iconKey=\n");
    }
    out.append("name=");
    out.append(instance.name.as_str());
    out.append("\n");
    out.append("notes=\n");
    proof {
        assert(out@ =~= spec_instance_cfg(instance.name@, instance.uuid@, has_icon));
    }
    out
}

/// The loader component of the descriptor document, chosen by variant:
/// the fabric vendor identifier or the forge vendor identifier, each with
/// the loader's version.
pub open spec fn spec_loader_component(l: LoaderModel) -> Seq<char> {
    match l {
        LoaderModel::Fabric(v) => "{\"cachedName\":\"Fabric Loader\",\"uid\":\"net.fabricmc.fabric-loader\",\"version\":\""@
            + escaped(v) + "\"}"@,
        LoaderModel::Forge(v) => "{\"cachedName\":\"Forge\",\"uid\":\"net.minecraftforge\",\"version\":\""@
            + escaped(v) + "\"}"@,
    }
}

/// The descriptor document: format version one, and exactly two
/// components — the game component, marked important, with the
/// instance's game version, then the loader component.
pub open spec fn spec_pack_json(inst: InstanceModel) -> Seq<char> {
    "{\"components\":[{\"cachedName\":\"Minecraft\",\"cachedRequires\":[],\"cachedVersion\":\""@
        + escaped(inst.mc_version)
        + "\",\"important\":true,\"uid\":\"net.minecraft\",\"version\":\""@ + escaped(
        inst.mc_version,
    ) + "\"},"@ + spec_loader_component(inst.mod_loader) + "],\"formatVersion\":1}"@
}

/// Generate the launcher's pack descriptor document.
pub fn gen_mmc_pack_json(instance: &FTBInstance) -> (r: String)
    ensures
        r@ == spec_pack_json(instance@),
{
    let mut out = String::new();
    out.append(
        "{\"components\":[{\"cachedName\":\"Minecraft\",\"cachedRequires\":[],\"cachedVersion\":\"",
    );
    append_escaped(&mut out, instance.mc_version.as_str());
    out.append("\",\"important\":true,\"uid\":\"net.minecraft\",\"version\":\"");
    append_escaped(&mut out, instance.mc_version.as_str());
    out.append("\"},");
    match &instance.mod_loader {
        ModLoader::Fabric(v) => {
            out.append(
                "{\"cachedName\":\"Fabric Loader\",\"uid\":\"net.fabricmc.fabric-loader\",\"version\":\"",
            );
            append_escaped(&mut out, v.as_str());
            out.append("\"}");
        },
        ModLoader::Forge(v) => {
            out.append("{\"cachedName\":\"Forge\",\"uid\":\"net.minecraftforge\",\"version\":\"");
            append_escaped(&mut out, v.as_str());
            out.append("\"}");
        },
    }
    out.append("],\"formatVersion\":1}");
    proof {
        assert(out@ =~= spec_pack_json(instance@));
    }
    out
}

} // verus!
