# mku

A Discord music bot. `src/` is the verified library: the answers the bot
gives (joining a voice channel, queueing a song, listing the queue, singing),
the colours of its embeds, how its slash commands are announced, and the
decimal reading and writing of ids. `app/` is the bot itself: the gateway
client, the voice driver and the commands' I/O, which hand plain values to the
library and show what it returns.
