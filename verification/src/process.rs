use vstd::prelude::*;
use crate::capture::push_text;
use crate::text::{
    decimal, decimal_text, join3, join_texts, joined_texts, lowercase_text, same_ignoring_case,
    same_text,
};

verus! {

/// The audio channels of a capture, in the order of its audio streams.
pub open spec fn channel_names() -> Seq<Seq<char>> {
    seq!["voice"@, "discord"@, "game"@]
}

/// The audio channels that a capture can hold.
pub fn channel_options() -> (options: Vec<String>)
    ensures
        options.deep_view() == channel_names(),
{
    let mut options: Vec<String> = Vec::new();
    push_text(&mut options, "voice".to_string());
    push_text(&mut options, "discord".to_string());
    push_text(&mut options, "game".to_string());
    assert(options.deep_view() =~= channel_names());
    options
}

/// Whether the user chose the channel `option`, in whatever case it was written.
pub open spec fn is_chosen(chosen: Seq<Seq<char>>, option: Seq<char>) -> bool {
    exists|i: int|
        0 <= i < chosen.len() && lowercase_text(#[trigger] chosen[i]) == lowercase_text(option)
}

/// The channels of `options[..upto]` that the user chose, in their order.
pub open spec fn chosen_among(chosen: Seq<Seq<char>>, options: Seq<Seq<char>>, upto: int) -> Seq<
    Seq<char>,
>
    decreases upto,
{
    if upto <= 0 {
        Seq::empty()
    } else {
        let before = chosen_among(chosen, options, upto - 1);
        if is_chosen(chosen, options[upto - 1]) {
            before.push(options[upto - 1])
        } else {
            before
        }
    }
}

/// The channels that are mixed: those of the capture's channels that the user
/// chose, in the capture's order; all of them where the user chose none of them.
pub open spec fn selected_channels(chosen: Seq<Seq<char>>) -> Seq<Seq<char>> {
    let picked = chosen_among(chosen, channel_names(), channel_names().len() as int);
    if picked.len() == 0 {
        channel_names()
    } else {
        picked
    }
}

fn chose(chosen: &Vec<String>, option: &str) -> (b: bool)
    ensures
        b == is_chosen(chosen.deep_view(), option@),
{
    let mut i: usize = 0;
    while i < chosen.len()
        invariant
            i <= chosen.len(),
            forall|j: int|
                0 <= j < i ==> lowercase_text(#[trigger] chosen.deep_view()[j]) != lowercase_text(
                    option@,
                ),
        decreases chosen.len() - i,
    {
        assert(chosen.deep_view()[i as int] == chosen[i as int]@);
        if same_ignoring_case(chosen[i].as_str(), option) {
            return true;
        }
        i = i + 1;
    }
    false
}

/// Picks the channels to mix from what the user chose.
pub fn select_channels(chosen: &Vec<String>) -> (selected: Vec<String>)
    ensures
        selected.deep_view() == selected_channels(chosen.deep_view()),
{
    let options = channel_options();
    let mut picked: Vec<String> = Vec::new();
    let mut i: usize = 0;
    assert(picked.deep_view() =~= Seq::<Seq<char>>::empty());
    while i < options.len()
        invariant
            i <= options.len(),
            options.deep_view() == channel_names(),
            picked.deep_view() == chosen_among(chosen.deep_view(), channel_names(), i as int),
        decreases options.len() - i,
    {
        assert(options.deep_view()[i as int] == options[i as int]@);
        if chose(chosen, options[i].as_str()) {
            push_text(&mut picked, options[i].clone());
        }
        i = i + 1;
    }
    if picked.len() == 0 {
        options
    } else {
        picked
    }
}

/// How loud each channel is mixed, as the filter graph writes it.
#[derive(Debug, PartialEq, Eq)]
pub struct AudioWeights {
    pub mic: String,
    pub discord: String,
    pub game: String,
}

pub struct AudioWeightsView {
    pub mic: Seq<char>,
    pub discord: Seq<char>,
    pub game: Seq<char>,
}

impl View for AudioWeights {
    type V = AudioWeightsView;

    open spec fn view(&self) -> AudioWeightsView {
        AudioWeightsView { mic: self.mic@, discord: self.discord@, game: self.game@ }
    }
}

/// A channel of the capture, by the audio stream that carries it.
#[derive(Debug, Clone, Copy, PartialEq, Eq, Structural)]
pub enum Channel {
    Voice,
    Discord,
    Game,
}

/// The channel that a name stands for.
pub open spec fn channel_of(name: Seq<char>) -> Option<Channel> {
    if name == "voice"@ {
        Some(Channel::Voice)
    } else if name == "discord"@ {
        Some(Channel::Discord)
    } else if name == "game"@ {
        Some(Channel::Game)
    } else {
        None
    }
}

fn parse_channel(name: &str) -> (channel: Option<Channel>)
    ensures
        channel == channel_of(name@),
{
    if same_text(name, "voice") {
        Some(Channel::Voice)
    } else if same_text(name, "discord") {
        Some(Channel::Discord)
    } else if same_text(name, "game") {
        Some(Channel::Game)
    } else {
        None
    }
}

impl AudioWeightsView {
    /// The weight of the channel called `name`; of a name that is no channel, one.
    pub open spec fn weight_for(self, name: Seq<char>) -> Seq<char> {
        match channel_of(name) {
            Some(Channel::Voice) => self.mic,
            Some(Channel::Discord) => self.discord,
            Some(Channel::Game) => self.game,
            None => "1.0"@,
        }
    }
}

impl AudioWeights {
    /// The weights as configured, each one where it is not.
    pub fn new(mic: Option<String>, discord: Option<String>, game: Option<String>) -> (weights: Self)
        ensures
            weights@ == (AudioWeightsView {
                mic: match mic {
                    Some(w) => w@,
                    None => "1.0"@,
                },
                discord: match discord {
                    Some(w) => w@,
                    None => "1.0"@,
                },
                game: match game {
                    Some(w) => w@,
                    None => "1.0"@,
                },
            }),
    {
        AudioWeights {
            mic: match mic {
                Some(w) => w,
                None => "1.0".to_string(),
            },
            discord: match discord {
                Some(w) => w,
                None => "1.0".to_string(),
            },
            game: match game {
                Some(w) => w,
                None => "1.0".to_string(),
            },
        }
    }

    pub fn weight_for(&self, channel: &str) -> (weight: &str)
        ensures
            weight@ == self@.weight_for(channel@),
    {
        match parse_channel(channel) {
            Some(Channel::Voice) => self.mic.as_str(),
            Some(Channel::Discord) => self.discord.as_str(),
            Some(Channel::Game) => self.game.as_str(),
            None => "1.0",
        }
    }
}

/// The format that every audio stream is brought to.
pub open spec fn audio_filter() -> Seq<char> {
    "aformat=sample_fmts=fltp:sample_rates=48000:channel_layouts=stereo"@
}

/// The format of the microphone, whose one channel is put on both sides.
pub open spec fn mic_filter() -> Seq<char> {
    "aformat=sample_fmts=fltp:sample_rates=48000,pan=stereo|FL<c0|FR<c0"@
}

impl Channel {
    /// The section of the filter graph that prepares this channel.
    pub open spec fn section(self) -> Seq<char> {
        match self {
            Channel::Voice => "[0:a:0]"@ + mic_filter() + "[mic]"@,
            Channel::Discord => "[0:a:1]"@ + audio_filter() + "[vc]"@,
            Channel::Game => "[0:a:2]"@ + audio_filter() + "[game]"@,
        }
    }

    /// The label under which the prepared channel enters the mix.
    pub open spec fn label(self) -> Seq<char> {
        match self {
            Channel::Voice => "[mic]"@,
            Channel::Discord => "[vc]"@,
            Channel::Game => "[game]"@,
        }
    }

    pub open spec fn name(self) -> Seq<char> {
        match self {
            Channel::Voice => "voice"@,
            Channel::Discord => "discord"@,
            Channel::Game => "game"@,
        }
    }

    fn section_text(self) -> (text: String)
        ensures
            text@ == self.section(),
    {
        match self {
            Channel::Voice => join3(
                "[0:a:0]",
                "aformat=sample_fmts=fltp:sample_rates=48000,pan=stereo|FL<c0|FR<c0",
                "[mic]",
            ),
            Channel::Discord => join3(
                "[0:a:1]",
                "aformat=sample_fmts=fltp:sample_rates=48000:channel_layouts=stereo",
                "[vc]",
            ),
            Channel::Game => join3(
                "[0:a:2]",
                "aformat=sample_fmts=fltp:sample_rates=48000:channel_layouts=stereo",
                "[game]",
            ),
        }
    }

    fn label_text(self) -> (text: &'static str)
        ensures
            text@ == self.label(),
    {
        match self {
            Channel::Voice => "[mic]",
            Channel::Discord => "[vc]",
            Channel::Game => "[game]",
        }
    }

    fn name_text(self) -> (text: &'static str)
        ensures
            text@ == self.name(),
    {
        match self {
            Channel::Voice => "voice",
            Channel::Discord => "discord",
            Channel::Game => "game",
        }
    }
}

/// The channels that the names of `names[..upto]` stand for, in their order;
/// a name that is no channel stands for none.
pub open spec fn known_channels(names: Seq<Seq<char>>, upto: int) -> Seq<Channel>
    decreases upto,
{
    if upto <= 0 {
        Seq::empty()
    } else {
        let before = known_channels(names, upto - 1);
        match channel_of(names[upto - 1]) {
            Some(channel) => before.push(channel),
            None => before,
        }
    }
}

/// The end of the filter graph: the mix of the inputs, where there are several,
/// then the limiter, then the common format.
pub open spec fn mix_section(
    labels: Seq<Seq<char>>,
    mix_weights: Seq<Seq<char>>,
    limiter: Seq<char>,
) -> Seq<char> {
    if labels.len() == 1 {
        labels[0] + "alimiter=limit="@ + limiter + ","@ + audio_filter() + "[aout]"@
    } else {
        joined_texts(labels, Seq::empty()) + "amix=inputs="@ + decimal_text(labels.len())
            + ":duration=longest:normalize=1:weights="@ + joined_texts(mix_weights, "|"@)
            + ",alimiter=limit="@ + limiter + ","@ + audio_filter() + "[aout]"@
    }
}

/// The filter graph that mixes `channels` with `weights` under the limit
/// `limiter`: one section for each channel, then the mix, with a semicolon
/// between each two. Where no name is a channel, the first audio stream is
/// taken as it is.
pub open spec fn filter_chain(
    channels: Seq<Seq<char>>,
    limiter: Seq<char>,
    weights: AudioWeightsView,
) -> Seq<char> {
    let known = known_channels(channels, channels.len() as int);
    if known.len() == 0 {
        joined_texts(
            seq![
                "[0:a:0]"@ + audio_filter() + "[mix]"@,
                mix_section(seq!["[mix]"@], seq!["1.0"@], limiter),
            ],
            ";"@,
        )
    } else {
        joined_texts(
            known.map_values(|c: Channel| c.section()).push(
                mix_section(
                    known.map_values(|c: Channel| c.label()),
                    known.map_values(|c: Channel| weights.weight_for(c.name())),
                    limiter,
                ),
            ),
            ";"@,
        )
    }
}

fn mix_section_text(labels: &Vec<String>, mix_weights: &Vec<String>, limiter: &str) -> (text:
    String)
    requires
        labels.len() >= 1,
    ensures
        text@ == mix_section(labels.deep_view(), mix_weights.deep_view(), limiter@),
{
    if labels.len() == 1 {
        assert(labels.deep_view()[0] == labels[0]@);
        let mut text = join3(labels[0].as_str(), "alimiter=limit=", limiter);
        text.append(",");
        text.append("aformat=sample_fmts=fltp:sample_rates=48000:channel_layouts=stereo");
        text.append("[aout]");
        text
    } else {
        let mut text = join_texts(labels, "");
        proof {
            reveal_strlit("");
            assert(""@ =~= Seq::<char>::empty());
        }
        text.append("amix=inputs=");
        text.append(decimal(labels.len() as u64).as_str());
        text.append(":duration=longest:normalize=1:weights=");
        text.append(join_texts(mix_weights, "|").as_str());
        text.append(",alimiter=limit=");
        text.append(limiter);
        text.append(",");
        text.append("aformat=sample_fmts=fltp:sample_rates=48000:channel_layouts=stereo");
        text.append("[aout]");
        text
    }
}

/// Writes the filter graph for the audio mix. `limiter` is the limit as the
/// graph writes it.
pub fn build_filter_chain(channels: &Vec<String>, limiter: &str, weights: &AudioWeights) -> (chain:
    String)
    ensures
        chain@ == filter_chain(channels.deep_view(), limiter@, weights@),
{
    let mut sections: Vec<String> = Vec::new();
    let mut labels: Vec<String> = Vec::new();
    let mut mix_weights: Vec<String> = Vec::new();
    let ghost mut known = Seq::<Channel>::empty();
    let ghost names = channels.deep_view();
    let mut i: usize = 0;
    assert(sections.deep_view() =~= known.map_values(|c: Channel| c.section()));
    assert(labels.deep_view() =~= known.map_values(|c: Channel| c.label()));
    assert(mix_weights.deep_view() =~= known.map_values(
        |c: Channel| weights@.weight_for(c.name()),
    ));
    while i < channels.len()
        invariant
            i <= channels.len(),
            names == channels.deep_view(),
            known == known_channels(names, i as int),
            sections.deep_view() == known.map_values(|c: Channel| c.section()),
            labels.deep_view() == known.map_values(|c: Channel| c.label()),
            mix_weights.deep_view() == known.map_values(
                |c: Channel| weights@.weight_for(c.name()),
            ),
            sections.len() == known.len(),
            labels.len() == known.len(),
        decreases channels.len() - i,
    {
        assert(names[i as int] == channels[i as int]@);
        match parse_channel(channels[i].as_str()) {
            Some(channel) => {
                push_text(&mut sections, channel.section_text());
                push_text(&mut labels, channel.label_text().to_string());
                push_text(&mut mix_weights, weights.weight_for(channel.name_text()).to_string());
                proof {
                    let grown = known.push(channel);
                    assert(sections.deep_view() =~= grown.map_values(|c: Channel| c.section()));
                    assert(labels.deep_view() =~= grown.map_values(|c: Channel| c.label()));
                    assert(mix_weights.deep_view() =~= grown.map_values(
                        |c: Channel| weights@.weight_for(c.name()),
                    ));
                    known = grown;
                }
            },
            None => {},
        }
        i = i + 1;
    }
    if labels.len() == 0 {
        push_text(
            &mut sections,
            join3(
                "[0:a:0]",
                "aformat=sample_fmts=fltp:sample_rates=48000:channel_layouts=stereo",
                "[mix]",
            ),
        );
        push_text(&mut labels, "[mix]".to_string());
        push_text(&mut mix_weights, "1.0".to_string());
        assert(labels.deep_view() =~= seq!["[mix]"@]);
        assert(mix_weights.deep_view() =~= seq!["1.0"@]);
        let last = mix_section_text(&labels, &mix_weights, limiter);
        push_text(&mut sections, last);
        assert(sections.deep_view() =~= seq![
            "[0:a:0]"@ + audio_filter() + "[mix]"@,
            mix_section(seq!["[mix]"@], seq!["1.0"@], limiter@),
        ]);
        join_texts(&sections, ";")
    } else {
        let last = mix_section_text(&labels, &mix_weights, limiter);
        push_text(&mut sections, last);
        join_texts(&sections, ";")
    }
}

} // verus!
